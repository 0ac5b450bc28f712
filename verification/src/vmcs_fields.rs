//! The directory of VMCS components: every component the monitor knows by
//! name, the encoding that VMREAD and VMWRITE take for it, and the bits of the
//! execution, exit and entry controls.
//!
//! The encodings follow the Intel manual, volume 3, appendix B. A 64-bit
//! component has two encodings: the even one names the whole component, the odd
//! one (`..High`) its upper half for processors that access 32 bits at a time.
use vstd::prelude::*;

verus! {

/// The number of components in the directory.
pub const VMCS_FIELD_COUNT: usize = 176;

/// A component of the virtual-machine control structure.
#[derive(Clone, Copy, Debug, PartialEq, Eq, Structural)]
pub enum VmcsField {
    // 16-bit control fields
    VirtualProcessorID,
    PostedIntrNV,
    // 16-bit guest-state fields
    GuestEsSelector,
    GuestCsSelector,
    GuestSsSelector,
    GuestDsSelector,
    GuestFsSelector,
    GuestGsSelector,
    GuestLdtrSelector,
    GuestTrSelector,
    GuestIntrStatus,
    GuestPmlIndex,
    // 16-bit host-state fields
    HostEsSelector,
    HostCsSelector,
    HostSsSelector,
    HostDsSelector,
    HostFsSelector,
    HostGsSelector,
    HostTrSelector,
    // 64-bit control fields
    IoBitmapA,
    IoBitmapAHigh,
    IoBitmapB,
    IoBitmapBHigh,
    MsrBitmap,
    MsrBitmapHigh,
    VmExitMsrStoreAddr,
    VmExitMsrStoreAddrHigh,
    VmExitMsrLoadAddr,
    VmExitMsrLoadAddrHigh,
    VmEntryMsrLoadAddr,
    VmEntryMsrLoadAddrHigh,
    PMLAddress,
    PMLAddressHigh,
    TscOffset,
    TscOffsetHigh,
    VirtualApicPageAddr,
    VirtualApicPageAddrHigh,
    APICAccessAddr,
    APICAccessAddrHigh,
    PostedIntrDescAddr,
    PostedIntrDescAddrHigh,
    EPTPointer,
    EPTPointerHigh,
    EoiExitBitmap0,
    EoiExitBitmap0High,
    EoiExitBitmap1,
    EoiExitBitmap1High,
    EoiExitBitmap2,
    EoiExitBitmap2High,
    EoiExitBitmap3,
    EoiExitBitmap3High,
    VmReadBitmap,
    VmWriteBitmap,
    XssExitBitmap,
    XssExitBitmapHigh,
    TsxMultiplier,
    TsxMultiplierHigh,
    // 64-bit read-only data fields
    GuestPhysicalAddress,
    GuestPhysicalAddressHigh,
    // 64-bit guest-state fields
    VmcsLinkPointer,
    VmcsLinkPointerHigh,
    GuestIA32Debugctl,
    GuestIA32DebugctlHigh,
    GuestIA32Pat,
    GuestIA32PatHigh,
    GuestIA32Efer,
    GuestIA32EferHigh,
    GuestIA32PerfGlobalCtrl,
    GuestIA32PerfGlobalCtrlHigh,
    GuestPDPtr0,
    GuestPDPtr0High,
    GuestPDPtr1,
    GuestPDPtr1High,
    GuestPDPtr2,
    GuestPDPtr2High,
    GuestPDPtr3,
    GuestPDPtr3High,
    GuestBndcfgs,
    GuestBndcfgsHigh,
    // 64-bit host-state fields
    HostIA32Pat,
    HostIA32PatHigh,
    HostIA32Efer,
    HostIA32EferHigh,
    HostIA32PerfGlobalCtrl,
    HostIA32PerfGlobalCtrlHigh,
    // 32-bit control fields
    PinBasedVmExecControl,
    CpuBasedVmExecControl,
    ExceptionBitmap,
    PageFaultErrorCodeMask,
    PageFaultErrorCodeMatch,
    Cr3TargetCount,
    VmExitControls,
    VmExitMsrStoreCount,
    VmExitMsrLoadCount,
    VmEntryControls,
    VmEntryMsrLoadCount,
    VmEntryIntrInfoField,
    VmEntryExceptionErrorCode,
    VmEntryInstructionLen,
    TPRThreshold,
    SecondaryVmExecControl,
    PLEGap,
    PLEWindow,
    // 32-bit read-only data fields
    VmInstructionError,
    VmExitReason,
    VmExitIntrInfo,
    VmExitIntrErrorCode,
    IdtVectoringInfoField,
    IdtVectoringErrorCode,
    VmExitInstructionLen,
    VmxInstructionInfo,
    // 32-bit guest-state fields
    GuestEsLimit,
    GuestCsLimit,
    GuestSsLimit,
    GuestDsLimit,
    GuestFsLimit,
    GuestGsLimit,
    GuestLdtrLimit,
    GuestTrLimit,
    GuestGdtrLimit,
    GuestIdtrLimit,
    GuestEsArBytes,
    GuestCsArBytes,
    GuestSsArBytes,
    GuestDsArBytes,
    GuestFsArBytes,
    GuestGsArBytes,
    GuestLdtrArBytes,
    GuestTrArBytes,
    GuestInterruptibilityInfo,
    GuestActivityState,
    GuestSysenterCs,
    VmxPreemptionTimerValue,
    // 32-bit host-state fields
    HostIA32SysenterCs,
    // natural-width control fields
    Cr0GuestHostMask,
    Cr4GuestHostMask,
    Cr0ReadShadow,
    Cr4ReadShadow,
    Cr3TargetValue0,
    Cr3TargetValue1,
    Cr3TargetValue2,
    Cr3TargetValue3,
    // natural-width read-only data fields
    ExitQualification,
    GuestLinearAddress,
    // natural-width guest-state fields
    GuestCr0,
    GuestCr3,
    GuestCr4,
    GuestEsBase,
    GuestCsBase,
    GuestSsBase,
    GuestDsBase,
    GuestFsBase,
    GuestGsBase,
    GuestLdtrBase,
    GuestTrBase,
    GuestGdtrBase,
    GuestIdtrBase,
    GuestDr7,
    GuestRsp,
    GuestRip,
    GuestRFlags,
    GuestPendingDbgExceptions,
    GuestSysenterEsp,
    GuestSysenterEip,
    // natural-width host-state fields
    HostCr0,
    HostCr3,
    HostCr4,
    HostFsBase,
    HostGsBase,
    HostTrBase,
    HostGdtrBase,
    HostIdtrBase,
    HostIA32SysenterEsp,
    HostIA32SysenterEip,
    HostRsp,
    HostRip,
}

impl VmcsField {
    /// The encoding of the component, as VMREAD and VMWRITE take it.
    pub open spec fn spec_encoding(self) -> u32 {
        match self {
            VmcsField::VirtualProcessorID => 0x0000,
            VmcsField::PostedIntrNV => 0x0002,
            VmcsField::GuestEsSelector => 0x0800,
            VmcsField::GuestCsSelector => 0x0802,
            VmcsField::GuestSsSelector => 0x0804,
            VmcsField::GuestDsSelector => 0x0806,
            VmcsField::GuestFsSelector => 0x0808,
            VmcsField::GuestGsSelector => 0x080a,
            VmcsField::GuestLdtrSelector => 0x080c,
            VmcsField::GuestTrSelector => 0x080e,
            VmcsField::GuestIntrStatus => 0x0810,
            VmcsField::GuestPmlIndex => 0x0812,
            VmcsField::HostEsSelector => 0x0c00,
            VmcsField::HostCsSelector => 0x0c02,
            VmcsField::HostSsSelector => 0x0c04,
            VmcsField::HostDsSelector => 0x0c06,
            VmcsField::HostFsSelector => 0x0c08,
            VmcsField::HostGsSelector => 0x0c0a,
            VmcsField::HostTrSelector => 0x0c0c,
            VmcsField::IoBitmapA => 0x2000,
            VmcsField::IoBitmapAHigh => 0x2001,
            VmcsField::IoBitmapB => 0x2002,
            VmcsField::IoBitmapBHigh => 0x2003,
            VmcsField::MsrBitmap => 0x2004,
            VmcsField::MsrBitmapHigh => 0x2005,
            VmcsField::VmExitMsrStoreAddr => 0x2006,
            VmcsField::VmExitMsrStoreAddrHigh => 0x2007,
            VmcsField::VmExitMsrLoadAddr => 0x2008,
            VmcsField::VmExitMsrLoadAddrHigh => 0x2009,
            VmcsField::VmEntryMsrLoadAddr => 0x200a,
            VmcsField::VmEntryMsrLoadAddrHigh => 0x200b,
            VmcsField::PMLAddress => 0x200e,
            VmcsField::PMLAddressHigh => 0x200f,
            VmcsField::TscOffset => 0x2010,
            VmcsField::TscOffsetHigh => 0x2011,
            VmcsField::VirtualApicPageAddr => 0x2012,
            VmcsField::VirtualApicPageAddrHigh => 0x2013,
            VmcsField::APICAccessAddr => 0x2014,
            VmcsField::APICAccessAddrHigh => 0x2015,
            VmcsField::PostedIntrDescAddr => 0x2016,
            VmcsField::PostedIntrDescAddrHigh => 0x2017,
            VmcsField::EPTPointer => 0x201a,
            VmcsField::EPTPointerHigh => 0x201b,
            VmcsField::EoiExitBitmap0 => 0x201c,
            VmcsField::EoiExitBitmap0High => 0x201d,
            VmcsField::EoiExitBitmap1 => 0x201e,
            VmcsField::EoiExitBitmap1High => 0x201f,
            VmcsField::EoiExitBitmap2 => 0x2020,
            VmcsField::EoiExitBitmap2High => 0x2021,
            VmcsField::EoiExitBitmap3 => 0x2022,
            VmcsField::EoiExitBitmap3High => 0x2023,
            VmcsField::VmReadBitmap => 0x2026,
            VmcsField::VmWriteBitmap => 0x2028,
            VmcsField::XssExitBitmap => 0x202c,
            VmcsField::XssExitBitmapHigh => 0x202d,
            VmcsField::TsxMultiplier => 0x2032,
            VmcsField::TsxMultiplierHigh => 0x2033,
            VmcsField::GuestPhysicalAddress => 0x2400,
            VmcsField::GuestPhysicalAddressHigh => 0x2401,
            VmcsField::VmcsLinkPointer => 0x2800,
            VmcsField::VmcsLinkPointerHigh => 0x2801,
            VmcsField::GuestIA32Debugctl => 0x2802,
            VmcsField::GuestIA32DebugctlHigh => 0x2803,
            VmcsField::GuestIA32Pat => 0x2804,
            VmcsField::GuestIA32PatHigh => 0x2805,
            VmcsField::GuestIA32Efer => 0x2806,
            VmcsField::GuestIA32EferHigh => 0x2807,
            VmcsField::GuestIA32PerfGlobalCtrl => 0x2808,
            VmcsField::GuestIA32PerfGlobalCtrlHigh => 0x2809,
            VmcsField::GuestPDPtr0 => 0x280a,
            VmcsField::GuestPDPtr0High => 0x280b,
            VmcsField::GuestPDPtr1 => 0x280c,
            VmcsField::GuestPDPtr1High => 0x280d,
            VmcsField::GuestPDPtr2 => 0x280e,
            VmcsField::GuestPDPtr2High => 0x280f,
            VmcsField::GuestPDPtr3 => 0x2810,
            VmcsField::GuestPDPtr3High => 0x2811,
            VmcsField::GuestBndcfgs => 0x2812,
            VmcsField::GuestBndcfgsHigh => 0x2813,
            VmcsField::HostIA32Pat => 0x2c00,
            VmcsField::HostIA32PatHigh => 0x2c01,
            VmcsField::HostIA32Efer => 0x2c02,
            VmcsField::HostIA32EferHigh => 0x2c03,
            VmcsField::HostIA32PerfGlobalCtrl => 0x2c04,
            VmcsField::HostIA32PerfGlobalCtrlHigh => 0x2c05,
            VmcsField::PinBasedVmExecControl => 0x4000,
            VmcsField::CpuBasedVmExecControl => 0x4002,
            VmcsField::ExceptionBitmap => 0x4004,
            VmcsField::PageFaultErrorCodeMask => 0x4006,
            VmcsField::PageFaultErrorCodeMatch => 0x4008,
            VmcsField::Cr3TargetCount => 0x400a,
            VmcsField::VmExitControls => 0x400c,
            VmcsField::VmExitMsrStoreCount => 0x400e,
            VmcsField::VmExitMsrLoadCount => 0x4010,
            VmcsField::VmEntryControls => 0x4012,
            VmcsField::VmEntryMsrLoadCount => 0x4014,
            VmcsField::VmEntryIntrInfoField => 0x4016,
            VmcsField::VmEntryExceptionErrorCode => 0x4018,
            VmcsField::VmEntryInstructionLen => 0x401a,
            VmcsField::TPRThreshold => 0x401c,
            VmcsField::SecondaryVmExecControl => 0x401e,
            VmcsField::PLEGap => 0x4020,
            VmcsField::PLEWindow => 0x4022,
            VmcsField::VmInstructionError => 0x4400,
            VmcsField::VmExitReason => 0x4402,
            VmcsField::VmExitIntrInfo => 0x4404,
            VmcsField::VmExitIntrErrorCode => 0x4406,
            VmcsField::IdtVectoringInfoField => 0x4408,
            VmcsField::IdtVectoringErrorCode => 0x440a,
            VmcsField::VmExitInstructionLen => 0x440c,
            VmcsField::VmxInstructionInfo => 0x440e,
            VmcsField::GuestEsLimit => 0x4800,
            VmcsField::GuestCsLimit => 0x4802,
            VmcsField::GuestSsLimit => 0x4804,
            VmcsField::GuestDsLimit => 0x4806,
            VmcsField::GuestFsLimit => 0x4808,
            VmcsField::GuestGsLimit => 0x480a,
            VmcsField::GuestLdtrLimit => 0x480c,
            VmcsField::GuestTrLimit => 0x480e,
            VmcsField::GuestGdtrLimit => 0x4810,
            VmcsField::GuestIdtrLimit => 0x4812,
            VmcsField::GuestEsArBytes => 0x4814,
            VmcsField::GuestCsArBytes => 0x4816,
            VmcsField::GuestSsArBytes => 0x4818,
            VmcsField::GuestDsArBytes => 0x481a,
            VmcsField::GuestFsArBytes => 0x481c,
            VmcsField::GuestGsArBytes => 0x481e,
            VmcsField::GuestLdtrArBytes => 0x4820,
            VmcsField::GuestTrArBytes => 0x4822,
            VmcsField::GuestInterruptibilityInfo => 0x4824,
            VmcsField::GuestActivityState => 0x4826,
            VmcsField::GuestSysenterCs => 0x482a,
            VmcsField::VmxPreemptionTimerValue => 0x482e,
            VmcsField::HostIA32SysenterCs => 0x4c00,
            VmcsField::Cr0GuestHostMask => 0x6000,
            VmcsField::Cr4GuestHostMask => 0x6002,
            VmcsField::Cr0ReadShadow => 0x6004,
            VmcsField::Cr4ReadShadow => 0x6006,
            VmcsField::Cr3TargetValue0 => 0x6008,
            VmcsField::Cr3TargetValue1 => 0x600a,
            VmcsField::Cr3TargetValue2 => 0x600c,
            VmcsField::Cr3TargetValue3 => 0x600e,
            VmcsField::ExitQualification => 0x6400,
            VmcsField::GuestLinearAddress => 0x640a,
            VmcsField::GuestCr0 => 0x6800,
            VmcsField::GuestCr3 => 0x6802,
            VmcsField::GuestCr4 => 0x6804,
            VmcsField::GuestEsBase => 0x6806,
            VmcsField::GuestCsBase => 0x6808,
            VmcsField::GuestSsBase => 0x680a,
            VmcsField::GuestDsBase => 0x680c,
            VmcsField::GuestFsBase => 0x680e,
            VmcsField::GuestGsBase => 0x6810,
            VmcsField::GuestLdtrBase => 0x6812,
            VmcsField::GuestTrBase => 0x6814,
            VmcsField::GuestGdtrBase => 0x6816,
            VmcsField::GuestIdtrBase => 0x6818,
            VmcsField::GuestDr7 => 0x681a,
            VmcsField::GuestRsp => 0x681c,
            VmcsField::GuestRip => 0x681e,
            VmcsField::GuestRFlags => 0x6820,
            VmcsField::GuestPendingDbgExceptions => 0x6822,
            VmcsField::GuestSysenterEsp => 0x6824,
            VmcsField::GuestSysenterEip => 0x6826,
            VmcsField::HostCr0 => 0x6c00,
            VmcsField::HostCr3 => 0x6c02,
            VmcsField::HostCr4 => 0x6c04,
            VmcsField::HostFsBase => 0x6c06,
            VmcsField::HostGsBase => 0x6c08,
            VmcsField::HostTrBase => 0x6c0a,
            VmcsField::HostGdtrBase => 0x6c0c,
            VmcsField::HostIdtrBase => 0x6c0e,
            VmcsField::HostIA32SysenterEsp => 0x6c10,
            VmcsField::HostIA32SysenterEip => 0x6c12,
            VmcsField::HostRsp => 0x6c14,
            VmcsField::HostRip => 0x6c16,
        }
    }

    /// The encoding of the component, as VMREAD and VMWRITE take it.
    pub fn encoding(self) -> (encoding: u32)
        ensures
            encoding == self.spec_encoding(),
    {
        match self {
            VmcsField::VirtualProcessorID => 0x0000,
            VmcsField::PostedIntrNV => 0x0002,
            VmcsField::GuestEsSelector => 0x0800,
            VmcsField::GuestCsSelector => 0x0802,
            VmcsField::GuestSsSelector => 0x0804,
            VmcsField::GuestDsSelector => 0x0806,
            VmcsField::GuestFsSelector => 0x0808,
            VmcsField::GuestGsSelector => 0x080a,
            VmcsField::GuestLdtrSelector => 0x080c,
            VmcsField::GuestTrSelector => 0x080e,
            VmcsField::GuestIntrStatus => 0x0810,
            VmcsField::GuestPmlIndex => 0x0812,
            VmcsField::HostEsSelector => 0x0c00,
            VmcsField::HostCsSelector => 0x0c02,
            VmcsField::HostSsSelector => 0x0c04,
            VmcsField::HostDsSelector => 0x0c06,
            VmcsField::HostFsSelector => 0x0c08,
            VmcsField::HostGsSelector => 0x0c0a,
            VmcsField::HostTrSelector => 0x0c0c,
            VmcsField::IoBitmapA => 0x2000,
            VmcsField::IoBitmapAHigh => 0x2001,
            VmcsField::IoBitmapB => 0x2002,
            VmcsField::IoBitmapBHigh => 0x2003,
            VmcsField::MsrBitmap => 0x2004,
            VmcsField::MsrBitmapHigh => 0x2005,
            VmcsField::VmExitMsrStoreAddr => 0x2006,
            VmcsField::VmExitMsrStoreAddrHigh => 0x2007,
            VmcsField::VmExitMsrLoadAddr => 0x2008,
            VmcsField::VmExitMsrLoadAddrHigh => 0x2009,
            VmcsField::VmEntryMsrLoadAddr => 0x200a,
            VmcsField::VmEntryMsrLoadAddrHigh => 0x200b,
            VmcsField::PMLAddress => 0x200e,
            VmcsField::PMLAddressHigh => 0x200f,
            VmcsField::TscOffset => 0x2010,
            VmcsField::TscOffsetHigh => 0x2011,
            VmcsField::VirtualApicPageAddr => 0x2012,
            VmcsField::VirtualApicPageAddrHigh => 0x2013,
            VmcsField::APICAccessAddr => 0x2014,
            VmcsField::APICAccessAddrHigh => 0x2015,
            VmcsField::PostedIntrDescAddr => 0x2016,
            VmcsField::PostedIntrDescAddrHigh => 0x2017,
            VmcsField::EPTPointer => 0x201a,
            VmcsField::EPTPointerHigh => 0x201b,
            VmcsField::EoiExitBitmap0 => 0x201c,
            VmcsField::EoiExitBitmap0High => 0x201d,
            VmcsField::EoiExitBitmap1 => 0x201e,
            VmcsField::EoiExitBitmap1High => 0x201f,
            VmcsField::EoiExitBitmap2 => 0x2020,
            VmcsField::EoiExitBitmap2High => 0x2021,
            VmcsField::EoiExitBitmap3 => 0x2022,
            VmcsField::EoiExitBitmap3High => 0x2023,
            VmcsField::VmReadBitmap => 0x2026,
            VmcsField::VmWriteBitmap => 0x2028,
            VmcsField::XssExitBitmap => 0x202c,
            VmcsField::XssExitBitmapHigh => 0x202d,
            VmcsField::TsxMultiplier => 0x2032,
            VmcsField::TsxMultiplierHigh => 0x2033,
            VmcsField::GuestPhysicalAddress => 0x2400,
            VmcsField::GuestPhysicalAddressHigh => 0x2401,
            VmcsField::VmcsLinkPointer => 0x2800,
            VmcsField::VmcsLinkPointerHigh => 0x2801,
            VmcsField::GuestIA32Debugctl => 0x2802,
            VmcsField::GuestIA32DebugctlHigh => 0x2803,
            VmcsField::GuestIA32Pat => 0x2804,
            VmcsField::GuestIA32PatHigh => 0x2805,
            VmcsField::GuestIA32Efer => 0x2806,
            VmcsField::GuestIA32EferHigh => 0x2807,
            VmcsField::GuestIA32PerfGlobalCtrl => 0x2808,
            VmcsField::GuestIA32PerfGlobalCtrlHigh => 0x2809,
            VmcsField::GuestPDPtr0 => 0x280a,
            VmcsField::GuestPDPtr0High => 0x280b,
            VmcsField::GuestPDPtr1 => 0x280c,
            VmcsField::GuestPDPtr1High => 0x280d,
            VmcsField::GuestPDPtr2 => 0x280e,
            VmcsField::GuestPDPtr2High => 0x280f,
            VmcsField::GuestPDPtr3 => 0x2810,
            VmcsField::GuestPDPtr3High => 0x2811,
            VmcsField::GuestBndcfgs => 0x2812,
            VmcsField::GuestBndcfgsHigh => 0x2813,
            VmcsField::HostIA32Pat => 0x2c00,
            VmcsField::HostIA32PatHigh => 0x2c01,
            VmcsField::HostIA32Efer => 0x2c02,
            VmcsField::HostIA32EferHigh => 0x2c03,
            VmcsField::HostIA32PerfGlobalCtrl => 0x2c04,
            VmcsField::HostIA32PerfGlobalCtrlHigh => 0x2c05,
            VmcsField::PinBasedVmExecControl => 0x4000,
            VmcsField::CpuBasedVmExecControl => 0x4002,
            VmcsField::ExceptionBitmap => 0x4004,
            VmcsField::PageFaultErrorCodeMask => 0x4006,
            VmcsField::PageFaultErrorCodeMatch => 0x4008,
            VmcsField::Cr3TargetCount => 0x400a,
            VmcsField::VmExitControls => 0x400c,
            VmcsField::VmExitMsrStoreCount => 0x400e,
            VmcsField::VmExitMsrLoadCount => 0x4010,
            VmcsField::VmEntryControls => 0x4012,
            VmcsField::VmEntryMsrLoadCount => 0x4014,
            VmcsField::VmEntryIntrInfoField => 0x4016,
            VmcsField::VmEntryExceptionErrorCode => 0x4018,
            VmcsField::VmEntryInstructionLen => 0x401a,
            VmcsField::TPRThreshold => 0x401c,
            VmcsField::SecondaryVmExecControl => 0x401e,
            VmcsField::PLEGap => 0x4020,
            VmcsField::PLEWindow => 0x4022,
            VmcsField::VmInstructionError => 0x4400,
            VmcsField::VmExitReason => 0x4402,
            VmcsField::VmExitIntrInfo => 0x4404,
            VmcsField::VmExitIntrErrorCode => 0x4406,
            VmcsField::IdtVectoringInfoField => 0x4408,
            VmcsField::IdtVectoringErrorCode => 0x440a,
            VmcsField::VmExitInstructionLen => 0x440c,
            VmcsField::VmxInstructionInfo => 0x440e,
            VmcsField::GuestEsLimit => 0x4800,
            VmcsField::GuestCsLimit => 0x4802,
            VmcsField::GuestSsLimit => 0x4804,
            VmcsField::GuestDsLimit => 0x4806,
            VmcsField::GuestFsLimit => 0x4808,
            VmcsField::GuestGsLimit => 0x480a,
            VmcsField::GuestLdtrLimit => 0x480c,
            VmcsField::GuestTrLimit => 0x480e,
            VmcsField::GuestGdtrLimit => 0x4810,
            VmcsField::GuestIdtrLimit => 0x4812,
            VmcsField::GuestEsArBytes => 0x4814,
            VmcsField::GuestCsArBytes => 0x4816,
            VmcsField::GuestSsArBytes => 0x4818,
            VmcsField::GuestDsArBytes => 0x481a,
            VmcsField::GuestFsArBytes => 0x481c,
            VmcsField::GuestGsArBytes => 0x481e,
            VmcsField::GuestLdtrArBytes => 0x4820,
            VmcsField::GuestTrArBytes => 0x4822,
            VmcsField::GuestInterruptibilityInfo => 0x4824,
            VmcsField::GuestActivityState => 0x4826,
            VmcsField::GuestSysenterCs => 0x482a,
            VmcsField::VmxPreemptionTimerValue => 0x482e,
            VmcsField::HostIA32SysenterCs => 0x4c00,
            VmcsField::Cr0GuestHostMask => 0x6000,
            VmcsField::Cr4GuestHostMask => 0x6002,
            VmcsField::Cr0ReadShadow => 0x6004,
            VmcsField::Cr4ReadShadow => 0x6006,
            VmcsField::Cr3TargetValue0 => 0x6008,
            VmcsField::Cr3TargetValue1 => 0x600a,
            VmcsField::Cr3TargetValue2 => 0x600c,
            VmcsField::Cr3TargetValue3 => 0x600e,
            VmcsField::ExitQualification => 0x6400,
            VmcsField::GuestLinearAddress => 0x640a,
            VmcsField::GuestCr0 => 0x6800,
            VmcsField::GuestCr3 => 0x6802,
            VmcsField::GuestCr4 => 0x6804,
            VmcsField::GuestEsBase => 0x6806,
            VmcsField::GuestCsBase => 0x6808,
            VmcsField::GuestSsBase => 0x680a,
            VmcsField::GuestDsBase => 0x680c,
            VmcsField::GuestFsBase => 0x680e,
            VmcsField::GuestGsBase => 0x6810,
            VmcsField::GuestLdtrBase => 0x6812,
            VmcsField::GuestTrBase => 0x6814,
            VmcsField::GuestGdtrBase => 0x6816,
            VmcsField::GuestIdtrBase => 0x6818,
            VmcsField::GuestDr7 => 0x681a,
            VmcsField::GuestRsp => 0x681c,
            VmcsField::GuestRip => 0x681e,
            VmcsField::GuestRFlags => 0x6820,
            VmcsField::GuestPendingDbgExceptions => 0x6822,
            VmcsField::GuestSysenterEsp => 0x6824,
            VmcsField::GuestSysenterEip => 0x6826,
            VmcsField::HostCr0 => 0x6c00,
            VmcsField::HostCr3 => 0x6c02,
            VmcsField::HostCr4 => 0x6c04,
            VmcsField::HostFsBase => 0x6c06,
            VmcsField::HostGsBase => 0x6c08,
            VmcsField::HostTrBase => 0x6c0a,
            VmcsField::HostGdtrBase => 0x6c0c,
            VmcsField::HostIdtrBase => 0x6c0e,
            VmcsField::HostIA32SysenterEsp => 0x6c10,
            VmcsField::HostIA32SysenterEip => 0x6c12,
            VmcsField::HostRsp => 0x6c14,
            VmcsField::HostRip => 0x6c16,
        }
    }

    /// The component at position `index` of the directory, which lists the
    /// components by ascending encoding. Past the end it is the last one.
    pub open spec fn spec_at(index: usize) -> VmcsField {
        match index {
            0 => VmcsField::VirtualProcessorID,
            1 => VmcsField::PostedIntrNV,
            2 => VmcsField::GuestEsSelector,
            3 => VmcsField::GuestCsSelector,
            4 => VmcsField::GuestSsSelector,
            5 => VmcsField::GuestDsSelector,
            6 => VmcsField::GuestFsSelector,
            7 => VmcsField::GuestGsSelector,
            8 => VmcsField::GuestLdtrSelector,
            9 => VmcsField::GuestTrSelector,
            10 => VmcsField::GuestIntrStatus,
            11 => VmcsField::GuestPmlIndex,
            12 => VmcsField::HostEsSelector,
            13 => VmcsField::HostCsSelector,
            14 => VmcsField::HostSsSelector,
            15 => VmcsField::HostDsSelector,
            16 => VmcsField::HostFsSelector,
            17 => VmcsField::HostGsSelector,
            18 => VmcsField::HostTrSelector,
            19 => VmcsField::IoBitmapA,
            20 => VmcsField::IoBitmapAHigh,
            21 => VmcsField::IoBitmapB,
            22 => VmcsField::IoBitmapBHigh,
            23 => VmcsField::MsrBitmap,
            24 => VmcsField::MsrBitmapHigh,
            25 => VmcsField::VmExitMsrStoreAddr,
            26 => VmcsField::VmExitMsrStoreAddrHigh,
            27 => VmcsField::VmExitMsrLoadAddr,
            28 => VmcsField::VmExitMsrLoadAddrHigh,
            29 => VmcsField::VmEntryMsrLoadAddr,
            30 => VmcsField::VmEntryMsrLoadAddrHigh,
            31 => VmcsField::PMLAddress,
            32 => VmcsField::PMLAddressHigh,
            33 => VmcsField::TscOffset,
            34 => VmcsField::TscOffsetHigh,
            35 => VmcsField::VirtualApicPageAddr,
            36 => VmcsField::VirtualApicPageAddrHigh,
            37 => VmcsField::APICAccessAddr,
            38 => VmcsField::APICAccessAddrHigh,
            39 => VmcsField::PostedIntrDescAddr,
            40 => VmcsField::PostedIntrDescAddrHigh,
            41 => VmcsField::EPTPointer,
            42 => VmcsField::EPTPointerHigh,
            43 => VmcsField::EoiExitBitmap0,
            44 => VmcsField::EoiExitBitmap0High,
            45 => VmcsField::EoiExitBitmap1,
            46 => VmcsField::EoiExitBitmap1High,
            47 => VmcsField::EoiExitBitmap2,
            48 => VmcsField::EoiExitBitmap2High,
            49 => VmcsField::EoiExitBitmap3,
            50 => VmcsField::EoiExitBitmap3High,
            51 => VmcsField::VmReadBitmap,
            52 => VmcsField::VmWriteBitmap,
            53 => VmcsField::XssExitBitmap,
            54 => VmcsField::XssExitBitmapHigh,
            55 => VmcsField::TsxMultiplier,
            56 => VmcsField::TsxMultiplierHigh,
            57 => VmcsField::GuestPhysicalAddress,
            58 => VmcsField::GuestPhysicalAddressHigh,
            59 => VmcsField::VmcsLinkPointer,
            60 => VmcsField::VmcsLinkPointerHigh,
            61 => VmcsField::GuestIA32Debugctl,
            62 => VmcsField::GuestIA32DebugctlHigh,
            63 => VmcsField::GuestIA32Pat,
            64 => VmcsField::GuestIA32PatHigh,
            65 => VmcsField::GuestIA32Efer,
            66 => VmcsField::GuestIA32EferHigh,
            67 => VmcsField::GuestIA32PerfGlobalCtrl,
            68 => VmcsField::GuestIA32PerfGlobalCtrlHigh,
            69 => VmcsField::GuestPDPtr0,
            70 => VmcsField::GuestPDPtr0High,
            71 => VmcsField::GuestPDPtr1,
            72 => VmcsField::GuestPDPtr1High,
            73 => VmcsField::GuestPDPtr2,
            74 => VmcsField::GuestPDPtr2High,
            75 => VmcsField::GuestPDPtr3,
            76 => VmcsField::GuestPDPtr3High,
            77 => VmcsField::GuestBndcfgs,
            78 => VmcsField::GuestBndcfgsHigh,
            79 => VmcsField::HostIA32Pat,
            80 => VmcsField::HostIA32PatHigh,
            81 => VmcsField::HostIA32Efer,
            82 => VmcsField::HostIA32EferHigh,
            83 => VmcsField::HostIA32PerfGlobalCtrl,
            84 => VmcsField::HostIA32PerfGlobalCtrlHigh,
            85 => VmcsField::PinBasedVmExecControl,
            86 => VmcsField::CpuBasedVmExecControl,
            87 => VmcsField::ExceptionBitmap,
            88 => VmcsField::PageFaultErrorCodeMask,
            89 => VmcsField::PageFaultErrorCodeMatch,
            90 => VmcsField::Cr3TargetCount,
            91 => VmcsField::VmExitControls,
            92 => VmcsField::VmExitMsrStoreCount,
            93 => VmcsField::VmExitMsrLoadCount,
            94 => VmcsField::VmEntryControls,
            95 => VmcsField::VmEntryMsrLoadCount,
            96 => VmcsField::VmEntryIntrInfoField,
            97 => VmcsField::VmEntryExceptionErrorCode,
            98 => VmcsField::VmEntryInstructionLen,
            99 => VmcsField::TPRThreshold,
            100 => VmcsField::SecondaryVmExecControl,
            101 => VmcsField::PLEGap,
            102 => VmcsField::PLEWindow,
            103 => VmcsField::VmInstructionError,
            104 => VmcsField::VmExitReason,
            105 => VmcsField::VmExitIntrInfo,
            106 => VmcsField::VmExitIntrErrorCode,
            107 => VmcsField::IdtVectoringInfoField,
            108 => VmcsField::IdtVectoringErrorCode,
            109 => VmcsField::VmExitInstructionLen,
            110 => VmcsField::VmxInstructionInfo,
            111 => VmcsField::GuestEsLimit,
            112 => VmcsField::GuestCsLimit,
            113 => VmcsField::GuestSsLimit,
            114 => VmcsField::GuestDsLimit,
            115 => VmcsField::GuestFsLimit,
            116 => VmcsField::GuestGsLimit,
            117 => VmcsField::GuestLdtrLimit,
            118 => VmcsField::GuestTrLimit,
            119 => VmcsField::GuestGdtrLimit,
            120 => VmcsField::GuestIdtrLimit,
            121 => VmcsField::GuestEsArBytes,
            122 => VmcsField::GuestCsArBytes,
            123 => VmcsField::GuestSsArBytes,
            124 => VmcsField::GuestDsArBytes,
            125 => VmcsField::GuestFsArBytes,
            126 => VmcsField::GuestGsArBytes,
            127 => VmcsField::GuestLdtrArBytes,
            128 => VmcsField::GuestTrArBytes,
            129 => VmcsField::GuestInterruptibilityInfo,
            130 => VmcsField::GuestActivityState,
            131 => VmcsField::GuestSysenterCs,
            132 => VmcsField::VmxPreemptionTimerValue,
            133 => VmcsField::HostIA32SysenterCs,
            134 => VmcsField::Cr0GuestHostMask,
            135 => VmcsField::Cr4GuestHostMask,
            136 => VmcsField::Cr0ReadShadow,
            137 => VmcsField::Cr4ReadShadow,
            138 => VmcsField::Cr3TargetValue0,
            139 => VmcsField::Cr3TargetValue1,
            140 => VmcsField::Cr3TargetValue2,
            141 => VmcsField::Cr3TargetValue3,
            142 => VmcsField::ExitQualification,
            143 => VmcsField::GuestLinearAddress,
            144 => VmcsField::GuestCr0,
            145 => VmcsField::GuestCr3,
            146 => VmcsField::GuestCr4,
            147 => VmcsField::GuestEsBase,
            148 => VmcsField::GuestCsBase,
            149 => VmcsField::GuestSsBase,
            150 => VmcsField::GuestDsBase,
            151 => VmcsField::GuestFsBase,
            152 => VmcsField::GuestGsBase,
            153 => VmcsField::GuestLdtrBase,
            154 => VmcsField::GuestTrBase,
            155 => VmcsField::GuestGdtrBase,
            156 => VmcsField::GuestIdtrBase,
            157 => VmcsField::GuestDr7,
            158 => VmcsField::GuestRsp,
            159 => VmcsField::GuestRip,
            160 => VmcsField::GuestRFlags,
            161 => VmcsField::GuestPendingDbgExceptions,
            162 => VmcsField::GuestSysenterEsp,
            163 => VmcsField::GuestSysenterEip,
            164 => VmcsField::HostCr0,
            165 => VmcsField::HostCr3,
            166 => VmcsField::HostCr4,
            167 => VmcsField::HostFsBase,
            168 => VmcsField::HostGsBase,
            169 => VmcsField::HostTrBase,
            170 => VmcsField::HostGdtrBase,
            171 => VmcsField::HostIdtrBase,
            172 => VmcsField::HostIA32SysenterEsp,
            173 => VmcsField::HostIA32SysenterEip,
            174 => VmcsField::HostRsp,
            _ => VmcsField::HostRip,
        }
    }

    /// The component at position `index` of the directory.
    pub fn at(index: usize) -> (field: VmcsField)
        requires
            index < VMCS_FIELD_COUNT,
        ensures
            field == Self::spec_at(index),
    {
        match index {
            0 => VmcsField::VirtualProcessorID,
            1 => VmcsField::PostedIntrNV,
            2 => VmcsField::GuestEsSelector,
            3 => VmcsField::GuestCsSelector,
            4 => VmcsField::GuestSsSelector,
            5 => VmcsField::GuestDsSelector,
            6 => VmcsField::GuestFsSelector,
            7 => VmcsField::GuestGsSelector,
            8 => VmcsField::GuestLdtrSelector,
            9 => VmcsField::GuestTrSelector,
            10 => VmcsField::GuestIntrStatus,
            11 => VmcsField::GuestPmlIndex,
            12 => VmcsField::HostEsSelector,
            13 => VmcsField::HostCsSelector,
            14 => VmcsField::HostSsSelector,
            15 => VmcsField::HostDsSelector,
            16 => VmcsField::HostFsSelector,
            17 => VmcsField::HostGsSelector,
            18 => VmcsField::HostTrSelector,
            19 => VmcsField::IoBitmapA,
            20 => VmcsField::IoBitmapAHigh,
            21 => VmcsField::IoBitmapB,
            22 => VmcsField::IoBitmapBHigh,
            23 => VmcsField::MsrBitmap,
            24 => VmcsField::MsrBitmapHigh,
            25 => VmcsField::VmExitMsrStoreAddr,
            26 => VmcsField::VmExitMsrStoreAddrHigh,
            27 => VmcsField::VmExitMsrLoadAddr,
            28 => VmcsField::VmExitMsrLoadAddrHigh,
            29 => VmcsField::VmEntryMsrLoadAddr,
            30 => VmcsField::VmEntryMsrLoadAddrHigh,
            31 => VmcsField::PMLAddress,
            32 => VmcsField::PMLAddressHigh,
            33 => VmcsField::TscOffset,
            34 => VmcsField::TscOffsetHigh,
            35 => VmcsField::VirtualApicPageAddr,
            36 => VmcsField::VirtualApicPageAddrHigh,
            37 => VmcsField::APICAccessAddr,
            38 => VmcsField::APICAccessAddrHigh,
            39 => VmcsField::PostedIntrDescAddr,
            40 => VmcsField::PostedIntrDescAddrHigh,
            41 => VmcsField::EPTPointer,
            42 => VmcsField::EPTPointerHigh,
            43 => VmcsField::EoiExitBitmap0,
            44 => VmcsField::EoiExitBitmap0High,
            45 => VmcsField::EoiExitBitmap1,
            46 => VmcsField::EoiExitBitmap1High,
            47 => VmcsField::EoiExitBitmap2,
            48 => VmcsField::EoiExitBitmap2High,
            49 => VmcsField::EoiExitBitmap3,
            50 => VmcsField::EoiExitBitmap3High,
            51 => VmcsField::VmReadBitmap,
            52 => VmcsField::VmWriteBitmap,
            53 => VmcsField::XssExitBitmap,
            54 => VmcsField::XssExitBitmapHigh,
            55 => VmcsField::TsxMultiplier,
            56 => VmcsField::TsxMultiplierHigh,
            57 => VmcsField::GuestPhysicalAddress,
            58 => VmcsField::GuestPhysicalAddressHigh,
            59 => VmcsField::VmcsLinkPointer,
            60 => VmcsField::VmcsLinkPointerHigh,
            61 => VmcsField::GuestIA32Debugctl,
            62 => VmcsField::GuestIA32DebugctlHigh,
            63 => VmcsField::GuestIA32Pat,
            64 => VmcsField::GuestIA32PatHigh,
            65 => VmcsField::GuestIA32Efer,
            66 => VmcsField::GuestIA32EferHigh,
            67 => VmcsField::GuestIA32PerfGlobalCtrl,
            68 => VmcsField::GuestIA32PerfGlobalCtrlHigh,
            69 => VmcsField::GuestPDPtr0,
            70 => VmcsField::GuestPDPtr0High,
            71 => VmcsField::GuestPDPtr1,
            72 => VmcsField::GuestPDPtr1High,
            73 => VmcsField::GuestPDPtr2,
            74 => VmcsField::GuestPDPtr2High,
            75 => VmcsField::GuestPDPtr3,
            76 => VmcsField::GuestPDPtr3High,
            77 => VmcsField::GuestBndcfgs,
            78 => VmcsField::GuestBndcfgsHigh,
            79 => VmcsField::HostIA32Pat,
            80 => VmcsField::HostIA32PatHigh,
            81 => VmcsField::HostIA32Efer,
            82 => VmcsField::HostIA32EferHigh,
            83 => VmcsField::HostIA32PerfGlobalCtrl,
            84 => VmcsField::HostIA32PerfGlobalCtrlHigh,
            85 => VmcsField::PinBasedVmExecControl,
            86 => VmcsField::CpuBasedVmExecControl,
            87 => VmcsField::ExceptionBitmap,
            88 => VmcsField::PageFaultErrorCodeMask,
            89 => VmcsField::PageFaultErrorCodeMatch,
            90 => VmcsField::Cr3TargetCount,
            91 => VmcsField::VmExitControls,
            92 => VmcsField::VmExitMsrStoreCount,
            93 => VmcsField::VmExitMsrLoadCount,
            94 => VmcsField::VmEntryControls,
            95 => VmcsField::VmEntryMsrLoadCount,
            96 => VmcsField::VmEntryIntrInfoField,
            97 => VmcsField::VmEntryExceptionErrorCode,
            98 => VmcsField::VmEntryInstructionLen,
            99 => VmcsField::TPRThreshold,
            100 => VmcsField::SecondaryVmExecControl,
            101 => VmcsField::PLEGap,
            102 => VmcsField::PLEWindow,
            103 => VmcsField::VmInstructionError,
            104 => VmcsField::VmExitReason,
            105 => VmcsField::VmExitIntrInfo,
            106 => VmcsField::VmExitIntrErrorCode,
            107 => VmcsField::IdtVectoringInfoField,
            108 => VmcsField::IdtVectoringErrorCode,
            109 => VmcsField::VmExitInstructionLen,
            110 => VmcsField::VmxInstructionInfo,
            111 => VmcsField::GuestEsLimit,
            112 => VmcsField::GuestCsLimit,
            113 => VmcsField::GuestSsLimit,
            114 => VmcsField::GuestDsLimit,
            115 => VmcsField::GuestFsLimit,
            116 => VmcsField::GuestGsLimit,
            117 => VmcsField::GuestLdtrLimit,
            118 => VmcsField::GuestTrLimit,
            119 => VmcsField::GuestGdtrLimit,
            120 => VmcsField::GuestIdtrLimit,
            121 => VmcsField::GuestEsArBytes,
            122 => VmcsField::GuestCsArBytes,
            123 => VmcsField::GuestSsArBytes,
            124 => VmcsField::GuestDsArBytes,
            125 => VmcsField::GuestFsArBytes,
            126 => VmcsField::GuestGsArBytes,
            127 => VmcsField::GuestLdtrArBytes,
            128 => VmcsField::GuestTrArBytes,
            129 => VmcsField::GuestInterruptibilityInfo,
            130 => VmcsField::GuestActivityState,
            131 => VmcsField::GuestSysenterCs,
            132 => VmcsField::VmxPreemptionTimerValue,
            133 => VmcsField::HostIA32SysenterCs,
            134 => VmcsField::Cr0GuestHostMask,
            135 => VmcsField::Cr4GuestHostMask,
            136 => VmcsField::Cr0ReadShadow,
            137 => VmcsField::Cr4ReadShadow,
            138 => VmcsField::Cr3TargetValue0,
            139 => VmcsField::Cr3TargetValue1,
            140 => VmcsField::Cr3TargetValue2,
            141 => VmcsField::Cr3TargetValue3,
            142 => VmcsField::ExitQualification,
            143 => VmcsField::GuestLinearAddress,
            144 => VmcsField::GuestCr0,
            145 => VmcsField::GuestCr3,
            146 => VmcsField::GuestCr4,
            147 => VmcsField::GuestEsBase,
            148 => VmcsField::GuestCsBase,
            149 => VmcsField::GuestSsBase,
            150 => VmcsField::GuestDsBase,
            151 => VmcsField::GuestFsBase,
            152 => VmcsField::GuestGsBase,
            153 => VmcsField::GuestLdtrBase,
            154 => VmcsField::GuestTrBase,
            155 => VmcsField::GuestGdtrBase,
            156 => VmcsField::GuestIdtrBase,
            157 => VmcsField::GuestDr7,
            158 => VmcsField::GuestRsp,
            159 => VmcsField::GuestRip,
            160 => VmcsField::GuestRFlags,
            161 => VmcsField::GuestPendingDbgExceptions,
            162 => VmcsField::GuestSysenterEsp,
            163 => VmcsField::GuestSysenterEip,
            164 => VmcsField::HostCr0,
            165 => VmcsField::HostCr3,
            166 => VmcsField::HostCr4,
            167 => VmcsField::HostFsBase,
            168 => VmcsField::HostGsBase,
            169 => VmcsField::HostTrBase,
            170 => VmcsField::HostGdtrBase,
            171 => VmcsField::HostIdtrBase,
            172 => VmcsField::HostIA32SysenterEsp,
            173 => VmcsField::HostIA32SysenterEip,
            174 => VmcsField::HostRsp,
            _ => VmcsField::HostRip,
        }
    }
}

// Pin-based VM-execution controls.
pub const PIN_BASED_CONTROLS_EXTERNAL_INTERRUPT_EXITING: u64 = 0x1;
pub const PIN_BASED_CONTROLS_NMI_EXITING: u64 = 0x8;
pub const PIN_BASED_CONTROLS_VIRTUAL_NMI: u64 = 0x20;
pub const PIN_BASED_CONTROLS_VMX_PREEMPTION: u64 = 0x40;
pub const PIN_BASED_CONTROLS_POSTED_INTERRUPTS: u64 = 0x80;

// Primary processor-based VM-execution controls.
pub const CPU_BASED_CONTROLS_INTERRUPT_WINDOW_EXITING: u64 = 0x4;
pub const CPU_BASED_CONTROLS_TSC_OFFSETTING: u64 = 0x8;
pub const CPU_BASED_CONTROLS_HLT_EXITING: u64 = 0x80;
pub const CPU_BASED_CONTROLS_INVLPG_EXITING: u64 = 0x200;
pub const CPU_BASED_CONTROLS_MWAIT_EXITING: u64 = 0x400;
pub const CPU_BASED_CONTROLS_RDPMC_EXITING: u64 = 0x800;
pub const CPU_BASED_CONTROLS_RDTSC_EXITING: u64 = 0x1000;
pub const CPU_BASED_CONTROLS_CR3_LD_EXITING: u64 = 0x8000;
pub const CPU_BASED_CONTROLS_CR3_ST_EXITING: u64 = 0x10000;
pub const CPU_BASED_CONTROLS_CR8_LD_EXITING: u64 = 0x80000;
pub const CPU_BASED_CONTROLS_CR8_ST_EXITING: u64 = 0x100000;
pub const CPU_BASED_CONTROLS_TPR_SHADOW: u64 = 0x200000;
pub const CPU_BASED_CONTROLS_NMI_WINDOW_EXITING: u64 = 0x400000;
pub const CPU_BASED_CONTROLS_MOV_DR_EXITING: u64 = 0x800000;
pub const CPU_BASED_CONTROLS_IO_EXITING: u64 = 0x1000000;
pub const CPU_BASED_CONTROLS_IO_BITMAPS: u64 = 0x2000000;
pub const CPU_BASED_CONTROLS_MONITOR_TRAP_FLAG_ENABLE: u64 = 0x8000000;
pub const CPU_BASED_CONTROLS_MSR_BITMAPS: u64 = 0x10000000;
pub const CPU_BASED_CONTROLS_MONITOR_EXITING: u64 = 0x20000000;
pub const CPU_BASED_CONTROLS_PAUSE_EXITING: u64 = 0x40000000;
pub const CPU_BASED_CONTROLS_SECONDARY_ENABLE: u64 = 0x80000000;

// Secondary processor-based VM-execution controls.
pub const SECONDARY_CPU_BASED_CONTROLS_VIRTUAL_APIC: u64 = 0x1;
pub const SECONDARY_CPU_BASED_CONTROLS_EPT_ENABLE: u64 = 0x2;
pub const SECONDARY_CPU_BASED_CONTROLS_DT_EXITING: u64 = 0x4;
pub const SECONDARY_CPU_BASED_CONTROLS_RDTSCP_ENABLE: u64 = 0x8;
pub const SECONDARY_CPU_BASED_CONTROLS_X2APIC_ENABLE: u64 = 0x10;
pub const SECONDARY_CPU_BASED_CONTROLS_VPID_ENABLE: u64 = 0x20;
pub const SECONDARY_CPU_BASED_CONTROLS_WBINVD_EXITING: u64 = 0x40;
pub const SECONDARY_CPU_BASED_CONTROLS_UNRESTRICTED_GUEST: u64 = 0x80;
pub const SECONDARY_CPU_BASED_CONTROLS_VIRTUAL_APIC_REGISTER: u64 = 0x100;
pub const SECONDARY_CPU_BASED_CONTROLS_VIRTUAL_INTERRUPT_ENABLE: u64 = 0x200;
pub const SECONDARY_CPU_BASED_CONTROLS_PAUSE_LOOP_EXITING: u64 = 0x400;
pub const SECONDARY_CPU_BASED_CONTROLS_RDRAND_EXITING: u64 = 0x800;
pub const SECONDARY_CPU_BASED_CONTROLS_INVPCID_ENABLE: u64 = 0x1000;
pub const SECONDARY_CPU_BASED_CONTROLS_VMFUNC_ENABLE: u64 = 0x2000;
pub const SECONDARY_CPU_BASED_CONTROLS_VMCS_SHADOW: u64 = 0x4000;
pub const SECONDARY_CPU_BASED_CONTROLS_ENCLS_EXITING: u64 = 0x8000;
pub const SECONDARY_CPU_BASED_CONTROLS_RDSEED_EXITING: u64 = 0x10000;
pub const SECONDARY_CPU_BASED_CONTROLS_PML_ENABLE: u64 = 0x20000;
pub const SECONDARY_CPU_BASED_CONTROLS_EPT_VE_ENABLE: u64 = 0x40000;
pub const SECONDARY_CPU_BASED_CONTROLS_PT_CONCEAL_VMX: u64 = 0x80000;
pub const SECONDARY_CPU_BASED_CONTROLS_XSAVES_ENABLE: u64 = 0x100000;
pub const SECONDARY_CPU_BASED_CONTROLS_EPT_EXECUTE_CONTROL: u64 = 0x400000;
pub const SECONDARY_CPU_BASED_CONTROLS_TSC_SCALING_ENABLE: u64 = 0x2000000;

// VM-exit controls.
pub const VM_EXIT_IA32E_MODE: u64 = 0x200;
pub const VM_EXIT_ACKNOWLEDGE_INTERRUPT_ON_EXIT: u64 = 0x8000;
pub const VM_EXIT_CONCEAL_VMX_FROM_PT: u64 = 0x1000000;

// VM-entry controls.
pub const VM_ENTRY_IA32E_MODE: u64 = 0x200;

} // verus!