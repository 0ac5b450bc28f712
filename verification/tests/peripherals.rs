use rustyvisor::gdt::{host_gdt, GDTDescriptor, GDTEntry, GDT_DESCRIPTOR_SIZE, GDT_LENGTH};
use rustyvisor::hypercall_handler::{
    parse_version, HYPERVISOR_VERSION_MAJOR, HYPERVISOR_VERSION_MINOR, HYPERVISOR_VERSION_PATCH,
};
use rustyvisor::loader::{
    create_vcpu, is_allocation_usable, tss_descriptor, VCpuAllocation, TSS_SIZE,
};
use rustyvisor::segmentation::GdtEntry64;
use rustyvisor::paging::{
    init, KernelData, PageTableEntry, PhysicalAddress, Translation, VirtualAddress,
    PAGE_PRESENT, PAGE_TABLE_SIZE, PAGE_WRITABLE,
};
use rustyvisor::uart::{
    transmitter_ready, PortWrite, Uart, UartBaudRate, UartComPort, UnsynchronizedUartLogger,
};
use rustyvisor::vmx::{VmFail, VmxEnablementError};
use rustyvisor::{core_load_status, PerCoreData};

#[test]
fn test_parse_version_reads_three_components() {
    assert_eq!(parse_version("1.2.3"), Some([1, 2, 3]));
    assert_eq!(parse_version("0.1.0"), Some([0, 1, 0]));
    assert_eq!(parse_version("10.20.30"), Some([10, 20, 30]));
    assert_eq!(parse_version("007.0.12345"), Some([7, 0, 12345]));
}

#[test]
fn test_parse_version_of_the_monitor() {
    assert_eq!(
        parse_version("0.1.0"),
        Some([HYPERVISOR_VERSION_MAJOR, HYPERVISOR_VERSION_MINOR, HYPERVISOR_VERSION_PATCH])
    );
}

#[test]
fn test_parse_version_fills_missing_components_with_zero() {
    assert_eq!(parse_version(""), Some([0, 0, 0]));
    assert_eq!(parse_version("7"), Some([7, 0, 0]));
    assert_eq!(parse_version("1.2"), Some([1, 2, 0]));
    assert_eq!(parse_version("..5"), Some([0, 0, 5]));
}

#[test]
fn test_parse_version_stops_after_the_patch_number() {
    assert_eq!(parse_version("1.2.3."), Some([1, 2, 3]));
    assert_eq!(parse_version("1.2.3-rc1"), Some([1, 2, 3]));
    assert_eq!(parse_version("1.2.3+-99"), Some([1, 2, 3]));
}

#[test]
fn test_parse_version_refuses_a_fourth_number() {
    assert_eq!(parse_version("1.2.3.4"), None);
    assert_eq!(parse_version("1.2.3-1"), None);
    assert_eq!(parse_version("...9"), None);
}

#[test]
fn test_parse_version_refuses_numbers_beyond_32_bits() {
    assert_eq!(parse_version("4294967295"), Some([4294967295, 0, 0]));
    assert_eq!(parse_version("4294967296"), None);
    assert_eq!(parse_version("1.99999999999.0"), None);
}

#[test]
fn test_parse_version_counts_a_character_of_several_bytes_once() {
    assert_eq!(parse_version("1é2"), Some([1, 2, 0]));
    assert_eq!(parse_version("1→2→3"), Some([1, 2, 3]));
    assert_eq!(parse_version("1😀2😀3😀"), Some([1, 2, 3]));
    assert_eq!(parse_version("1😀2😀3😀4"), None);
}

#[test]
fn test_uart_ports() {
    assert_eq!(UartComPort::Com1.io_port_base(), 0x3f8);
    assert_eq!(UartComPort::Com2.io_port_base(), 0x2f8);
    assert_eq!(UartComPort::Com3.io_port_base(), 0x3e8);
    assert_eq!(UartComPort::Com4.io_port_base(), 0x2e8);
    let uart = Uart::new(UartComPort::Com2);
    assert_eq!(uart.transmit_port(), 0x2f8);
    assert_eq!(uart.line_status_port(), 0x2fd);
    assert_eq!(UartBaudRate::Baud115200.rate(), 115200);
    assert_eq!(UartBaudRate::Baud9600.rate(), 9600);
}

#[test]
fn test_uart_init_writes() {
    let uart = Uart::new(UartComPort::Com1);
    let writes = uart.init(false, UartBaudRate::Baud115200);
    let expected = vec![
        PortWrite { port: 0x3f9, data: 0x00 },
        PortWrite { port: 0x3fb, data: 0x80 },
        PortWrite { port: 0x3f8, data: 0x00 },
        PortWrite { port: 0x3f9, data: 0xc2 },
        PortWrite { port: 0x3fb, data: 0x03 },
        PortWrite { port: 0x3fa, data: 0xc7 },
        PortWrite { port: 0x3fc, data: 0x0b },
        PortWrite { port: 0x3f9, data: 0x00 },
    ];
    assert_eq!(writes, expected);
    let slow = Uart::new(UartComPort::Com4).init(false, UartBaudRate::Baud9600);
    assert_eq!(slow[2], PortWrite { port: 0x2e8, data: 0x80 });
    assert_eq!(slow[3], PortWrite { port: 0x2e9, data: 0x25 });
    assert_eq!(slow.len(), 8);
}

#[test]
fn test_transmitter_ready() {
    assert!(transmitter_ready(0x20));
    assert!(transmitter_ready(0x60));
    assert!(!transmitter_ready(0x40));
    assert!(!transmitter_ready(0));
}

#[test]
fn test_unsynchronized_logger_names_its_uart() {
    let logger = UnsynchronizedUartLogger::new(UartComPort::Com3);
    assert_eq!(logger.uart(), Uart::new(UartComPort::Com3));
    assert_eq!(logger.uart().transmit_port(), 0x3e8);
}

#[test]
fn test_offset_comes_from_the_first_translation() {
    let translations = vec![
        Translation { phys: 0x1000_0000, virt: 0xffff_8000_1000_0000 },
        Translation { phys: 0x2000_0000, virt: 0x3000_0000 },
    ];
    assert_eq!(init(&translations), Ok(0xffff_8000_0000_0000));
    let down = vec![Translation { phys: 0x5000, virt: 0x1000 }];
    assert_eq!(init(&down), Ok(0u64.wrapping_sub(0x4000)));
    let none: Vec<Translation> = Vec::new();
    assert_eq!(init(&none), Err(()));
}

#[test]
fn test_address_translation_goes_both_ways() {
    let offset = 0xffff_8000_0000_0000u64;
    let phys = PhysicalAddress(0x1234_5000);
    let virt = phys.as_virtual_address(offset);
    assert_eq!(virt, VirtualAddress(0xffff_8000_1234_5000));
    assert_eq!(virt.as_physical_address(offset), phys);
    let down = 0u64.wrapping_sub(0x4000);
    assert_eq!(PhysicalAddress(0x5000).as_virtual_address(down), VirtualAddress(0x1000));
    assert_eq!(VirtualAddress(0x1000).as_physical_address(down), PhysicalAddress(0x5000));
}

#[test]
fn test_page_table_indices() {
    let address = VirtualAddress((0o123 << 27) | (0o456 << 18) | (0o701 << 9) | 0o234);
    assert_eq!(address.p4_index(), 0o123);
    assert_eq!(address.p3_index(), 0o456);
    assert_eq!(address.p2_index(), 0o701);
    assert_eq!(address.p1_index(), 0o234);
    let all = VirtualAddress(u64::MAX);
    assert_eq!(all.p4_index(), PAGE_TABLE_SIZE - 1);
    assert_eq!(all.p1_index(), 511);
    assert_eq!(VirtualAddress(0).p3_index(), 0);
}

#[test]
fn test_page_table_entry() {
    let mut entry = PageTableEntry::default();
    assert!(!entry.is_present());
    entry.set(0x0000_0001_2345_6000 | PAGE_WRITABLE | PAGE_PRESENT);
    assert!(entry.is_present());
    assert_eq!(entry.as_virtual_address(), VirtualAddress(0x0000_0001_2345_6000));
    entry.set(0xfff0_0000_0000_0ffe);
    assert!(!entry.is_present());
    assert_eq!(entry.as_virtual_address(), VirtualAddress(0));
    assert_eq!(PAGE_PRESENT, 1);
    assert_eq!(PAGE_WRITABLE, 2);
}

#[test]
fn test_kernel_data_holds_its_fields() {
    let data = KernelData { heap_size: 0x10_0000, translations_count: 2, heap: 0x4000, translations: 0x8000 };
    assert_eq!(data.translations_count, 2);
    let core = PerCoreData {
        vmxon_region: 0x1000,
        vmcs: 0x2000,
        vmxon_region_phys: 0x1000,
        vmcs_phys: 0x2000,
        vmxon_region_size: 0x1000,
        vmcs_size: 0x1000,
        loaded_successfully: false,
    };
    assert!(!core.loaded_successfully);
}

#[test]
fn test_host_gdt() {
    let gdt = host_gdt();
    assert_eq!(gdt.len(), GDT_LENGTH);
    assert_eq!(
        gdt[0],
        GDTEntry {
            limit_low: 0,
            base_low: 0,
            base_middle: 0,
            access: 0,
            granularity: 0,
            base_high: 0,
            base_highest: 0,
            reserved0: 0,
        }
    );
    assert_eq!(gdt[1].access, 0b1010_1001);
    assert_eq!(gdt[2].access, 0b0010_1001);
    assert_eq!(gdt[1].granularity, 0b1111_0111);
    assert_eq!(gdt[2].limit_low, 0xffff);
}

#[test]
fn test_gdt_descriptor_covers_the_table() {
    let descriptor = GDTDescriptor::new(0xffff_8000_0050_0000);
    let guard = descriptor.cli();
    assert_eq!(guard.get().limit as usize, GDT_LENGTH * GDT_DESCRIPTOR_SIZE - 1);
    assert_eq!(guard.get().limit, 47);
    assert_eq!(guard.get().base, 0xffff_8000_0050_0000);
    guard.release();
}

#[test]
fn test_core_load_status() {
    assert_eq!(core_load_status(Ok(()), Ok(())), 0);
    assert_eq!(core_load_status(Err(VmxEnablementError::VmxOnFailure), Ok(())), -1);
    assert_eq!(
        core_load_status(Err(VmxEnablementError::VmxExtensionsAbsent), Err(VmFail::VmFailValid)),
        -1
    );
    assert_eq!(core_load_status(Ok(()), Err(VmFail::VmFailValid)), 1);
    assert_eq!(core_load_status(Ok(()), Err(VmFail::VmFailInvalid)), 1);
}

#[test]
fn test_tss_descriptor_splits_the_address() {
    let descriptor = tss_descriptor(0xffff_8000_1234_5678);
    assert_eq!(
        descriptor,
        GdtEntry64 {
            limit_low: 103,
            base_low: 0x5678,
            base_middle: 0x34,
            access: 0xe9,
            granularity: 0,
            base_high: 0x12,
            base_highest: 0xffff_8000,
            reserved0: 0,
        }
    );
    assert_eq!(TSS_SIZE, 104);
}

#[test]
fn test_create_vcpu_fills_in_the_record() {
    let allocation = VCpuAllocation {
        vcpu: 0xffff_8000_0010_0000,
        tss: 0xffff_8000_0080_0000,
        virtual_local_interrupt_controller: 0xffff_8000_0060_0000,
        vmxon_region: 0xffff_8000_0020_0000,
        vmxon_region_phys: 0x20_0000,
        vmcs: 0xffff_8000_0030_0000,
        vmcs_phys: 0x30_0000,
        stack: 0xffff_8000_0040_0000,
        stack_pages: 2,
        msr_bitmap_phys: 0x70_0000,
        host_gdt: 0xffff_8000_0050_0000,
        host_gdt_size: 7 * 8 + 16,
    };
    assert!(is_allocation_usable(&allocation, 7));
    let vcpu = create_vcpu(&allocation, 7);
    assert_eq!(vcpu.this_vcpu, allocation.vcpu);
    assert_eq!(vcpu.vmxon_region_size, 0x1000);
    assert_eq!(vcpu.vmcs_size, 0x1000);
    assert_eq!(vcpu.stack_size, 0x2000);
    assert_eq!(vcpu.stack_top, 0xffff_8000_0040_2000);
    assert_eq!(vcpu.host_gdt_limit, 71);
    assert_eq!(vcpu.tr_selector, 0x38);
    assert_eq!(vcpu.tr_base, allocation.tss);
    assert_eq!(vcpu.msr_bitmap, 0x70_0000);
    assert!(!vcpu.loaded_successfully);
    assert!(vcpu.is_valid());
}

#[test]
fn test_allocation_that_cannot_be_used() {
    let mut allocation = VCpuAllocation {
        vcpu: 0x1000,
        tss: 0x2000,
        virtual_local_interrupt_controller: 0x3000,
        vmxon_region: 0x4000,
        vmxon_region_phys: 0x4000,
        vmcs: 0x5000,
        vmcs_phys: 0x5000,
        stack: 0x6000,
        stack_pages: 1,
        msr_bitmap_phys: 0x7000,
        host_gdt: 0x8000,
        host_gdt_size: 32,
    };
    assert!(is_allocation_usable(&allocation, 8191));
    assert!(!is_allocation_usable(&allocation, 8192));
    allocation.host_gdt_size = 0;
    assert!(!is_allocation_usable(&allocation, 3));
    allocation.host_gdt_size = 32;
    allocation.stack = u64::MAX - 0xfff;
    assert!(!is_allocation_usable(&allocation, 3));
    allocation.stack = u64::MAX - 0x1000;
    assert!(is_allocation_usable(&allocation, 3));
    allocation.stack_pages = usize::MAX;
    assert!(!is_allocation_usable(&allocation, 3));
}
