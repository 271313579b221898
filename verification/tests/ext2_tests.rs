use emkk::allocator::MemoryBlock;
use emkk::buffer::Buffer;
use emkk::ext2_reads::{pointer_read_plan, BlockRead, Disk, DiskIOResult, GfsReadError};
use emkk::pfs::{PhysicalExt2, PhysicalExt2Directory};
use std::cell::RefCell;

struct RecordingDisk {
    reads: RefCell<Vec<(u64, u64, u64)>>,
    fail_on: Option<usize>,
}

impl Disk for RecordingDisk {
    fn sector_size_spec(&self) -> u32 {
        512
    }
    fn sector_size(&self) -> u32 {
        512
    }
    fn read_into_buffer(&self, lba: u64, buffer: &Buffer, _scheduler: u8) -> DiskIOResult {
        let mut reads = self.reads.borrow_mut();
        reads.push((lba, buffer.ptr - 0x10000, buffer.original_size));
        if Some(reads.len()) == self.fail_on {
            DiskIOResult::InvalidLba
        } else {
            DiskIOResult::Success
        }
    }
}

fn file_system() -> PhysicalExt2 {
    PhysicalExt2 {
        memory: [MemoryBlock { base: 0, length: 0 }],
        block_groups: Vec::new(),
        root_directory: PhysicalExt2Directory::empty(),
        starting_lba: 100,
        inodes_per_block_group: 8,
        block_size: 0,
    }
}

fn buffer() -> Buffer {
    Buffer::from_existing(0x10000, 0x2000, 0x2000, false)
}

#[test]
fn neighbouring_blocks_are_read_as_one_transfer() {
    let disk = RecordingDisk { reads: RefCell::new(Vec::new()), fail_on: None };
    let r = file_system().read_pointer_content_into_buffer(&buffer(), &[10, 11, 12, 20, 0], &disk, 1);
    assert_eq!(r, Ok(3072));
    // The run after the first one is taken to start at 10 + 20.
    assert_eq!(*disk.reads.borrow(), vec![(120, 0, 3072), (160, 3072, 0)]);
}

#[test]
fn indirect_blocks_start_a_new_run_at_the_breaking_pointer() {
    let disk = RecordingDisk { reads: RefCell::new(Vec::new()), fail_on: None };
    let r = file_system().read_singly_indirect_pointer_block(&buffer(), &[10, 11, 12, 20, 21, 0], &disk, 1);
    assert_eq!(r, Ok(3072));
    assert_eq!(*disk.reads.borrow(), vec![(120, 0, 3072), (140, 3072, 0), (142, 3072, 0)]);
}

#[test]
fn a_failed_transfer_stops_the_reading() {
    let disk = RecordingDisk { reads: RefCell::new(Vec::new()), fail_on: Some(1) };
    let r = file_system().read_pointer_content_into_buffer(&buffer(), &[10, 11, 20, 0], &disk, 1);
    assert_eq!(r, Err(GfsReadError::DiskError(DiskIOResult::InvalidLba)));
    assert_eq!(disk.reads.borrow().len(), 1);
}

#[test]
fn the_read_plan_is_what_the_disk_is_given() {
    let (plan, end) = pointer_read_plan(&[10, 11, 12, 20, 0], 512, 1024, 0, 100, true, false);
    assert_eq!(end, 3072);
    assert_eq!(
        plan,
        vec![BlockRead { lba: 120, offset: 0, length: 3072 }, BlockRead { lba: 160, offset: 3072, length: 0 }]
    );
    let (plan, _) = pointer_read_plan(&[10, 11, 12, 20, 21, 0], 512, 1024, 0, 100, false, true);
    let disk = RecordingDisk { reads: RefCell::new(Vec::new()), fail_on: None };
    let _ = file_system().read_singly_indirect_pointer_block(&buffer(), &[10, 11, 12, 20, 21, 0], &disk, 1);
    let issued: Vec<(u64, u64, u64)> = plan.iter().map(|r| (r.lba, r.offset, r.length)).collect();
    assert_eq!(*disk.reads.borrow(), issued);
}
