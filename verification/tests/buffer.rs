use luminance_gl::call::Call;
use luminance_gl::gl33::buffer;
use luminance_gl::gl33::buffer::{
    acquire, contains, free, map_mut, new, read, read_whole, relinquish, unmap, write_whole,
    BufferError, GLBuffer,
};

#[test]
fn new_buffer_is_allocated_unbound() {
    let (block, calls) = new(7, 64);
    assert_eq!(block, GLBuffer { handle: 7, bytes: 64 });
    assert_eq!(
        calls,
        vec![
            Call::BindBuffer { target: gl::ARRAY_BUFFER, buffer: 7 },
            Call::BufferData { target: gl::ARRAY_BUFFER, bytes: 64, usage: gl::STREAM_DRAW },
            Call::BindBuffer { target: gl::ARRAY_BUFFER, buffer: 0 },
        ]
    );
}

#[test]
fn free_deletes_the_handle() {
    assert_eq!(free(&GLBuffer { handle: 3, bytes: 8 }), vec![Call::DeleteBuffer { buffer: 3 }]);
}

#[test]
fn scoped_access_binds_maps_unmaps_and_unbinds() {
    let block = GLBuffer { handle: 5, bytes: 16 };
    assert_eq!(
        acquire(&block, gl::WRITE_ONLY),
        vec![
            Call::BindBuffer { target: gl::ARRAY_BUFFER, buffer: 5 },
            Call::MapBuffer { target: gl::ARRAY_BUFFER, access: gl::WRITE_ONLY },
        ]
    );
    assert_eq!(
        relinquish(),
        vec![
            Call::UnmapBuffer { target: gl::ARRAY_BUFFER },
            Call::BindBuffer { target: gl::ARRAY_BUFFER, buffer: 0 },
        ]
    );
}

#[test]
fn map_reads_and_map_mut_reads_and_writes() {
    let mapped = GLBuffer { handle: 5, bytes: 16 };
    assert_eq!(
        buffer::map(&mapped),
        vec![
            Call::BindBuffer { target: gl::ARRAY_BUFFER, buffer: 5 },
            Call::MapBuffer { target: gl::ARRAY_BUFFER, access: gl::READ_ONLY },
        ]
    );
    assert_eq!(
        map_mut(&mapped),
        vec![
            Call::BindBuffer { target: gl::ARRAY_BUFFER, buffer: 5 },
            Call::MapBuffer { target: gl::ARRAY_BUFFER, access: gl::READ_WRITE },
        ]
    );
    assert_eq!(
        unmap(&mapped),
        vec![
            Call::BindBuffer { target: gl::ARRAY_BUFFER, buffer: 5 },
            Call::UnmapBuffer { target: gl::ARRAY_BUFFER },
        ]
    );
}

#[test]
fn write_whole_with_too_few_values_writes_them_and_warns() {
    let block = GLBuffer { handle: 1, bytes: 8 };
    let mut memory = [9u8; 8];
    let outcome = write_whole(&block, &mut memory, &[1, 2, 3]);
    assert_eq!(outcome, Err(BufferError::TooFewValues));
    assert_eq!(memory, [1, 2, 3, 9, 9, 9, 9, 9]);
}

#[test]
fn write_whole_with_too_many_values_truncates_and_warns() {
    let block = GLBuffer { handle: 1, bytes: 4 };
    let mut memory = [0u8; 4];
    let outcome = write_whole(&block, &mut memory, &[10, 20, 30, 40, 50, 60]);
    assert_eq!(outcome, Err(BufferError::TooManyValues));
    assert_eq!(memory, [10, 20, 30, 40]);
}

#[test]
fn write_whole_with_exact_size_copies_without_warning() {
    let block = GLBuffer { handle: 1, bytes: 4 };
    let mut memory = [0u8; 4];
    let outcome = write_whole(&block, &mut memory, &[4, 3, 2, 1]);
    assert_eq!(outcome, Ok(()));
    assert_eq!(memory, [4, 3, 2, 1]);
}

#[test]
fn write_whole_of_nothing_into_an_empty_buffer_is_exact() {
    let block = GLBuffer { handle: 1, bytes: 0 };
    let mut memory: [u8; 0] = [];
    assert_eq!(write_whole(&block, &mut memory, &[]), Ok(()));
    assert_eq!(write_whole(&block, &mut memory, &[1]), Err(BufferError::TooManyValues));
}

#[test]
fn write_at_the_end_overflows_and_changes_nothing() {
    let block = GLBuffer { handle: 1, bytes: 4 };
    let mut memory = [1u8, 2, 3, 4];
    assert_eq!(buffer::write(&block, &mut memory, 4, &[7]), Err(BufferError::Overflow));
    assert_eq!(buffer::write(&block, &mut memory, 400, &[7]), Err(BufferError::Overflow));
    assert_eq!(buffer::write(&block, &mut memory, usize::MAX, &[7, 7]), Err(BufferError::Overflow));
    assert_eq!(buffer::write(&block, &mut memory, 4, &[]), Err(BufferError::Overflow));
    assert_eq!(read_whole(&block, &memory, 4), vec![1, 2, 3, 4]);
}

#[test]
fn write_reaching_past_the_end_overflows_and_changes_nothing() {
    let block = GLBuffer { handle: 1, bytes: 4 };
    let mut memory = [1u8, 2, 3, 4];
    assert_eq!(buffer::write(&block, &mut memory, 2, &[7, 7, 7]), Err(BufferError::Overflow));
    assert_eq!(memory, [1, 2, 3, 4]);
}

#[test]
fn write_in_bounds_stores_the_value_in_place() {
    let block = GLBuffer { handle: 1, bytes: 6 };
    let mut memory = [0u8; 6];
    assert_eq!(buffer::write(&block, &mut memory, 2, &[0xAA, 0xBB]), Ok(()));
    assert_eq!(memory, [0, 0, 0xAA, 0xBB, 0, 0]);
    assert_eq!(buffer::write(&block, &mut memory, 5, &[0xCC]), Ok(()));
    assert_eq!(memory, [0, 0, 0xAA, 0xBB, 0, 0xCC]);
    assert_eq!(read(&block, &memory, 2, 2), Some(vec![0xAA, 0xBB]));
}

#[test]
fn read_out_of_range_gives_nothing() {
    let block = GLBuffer { handle: 1, bytes: 4 };
    let memory = [1u8, 2, 3, 4];
    assert_eq!(read(&block, &memory, 4, 1), None);
    assert_eq!(read(&block, &memory, 3, 2), None);
    assert_eq!(read(&block, &memory, 3, 1), Some(vec![4]));
    assert_eq!(read(&block, &memory, 0, 4), Some(vec![1, 2, 3, 4]));
}

#[test]
fn read_whole_stops_at_the_end_of_the_buffer() {
    let block = GLBuffer { handle: 1, bytes: 4 };
    let memory = [1u8, 2, 3, 4];
    assert_eq!(read_whole(&block, &memory, 2), vec![1, 2]);
    assert_eq!(read_whole(&block, &memory, 4), vec![1, 2, 3, 4]);
    assert_eq!(read_whole(&block, &memory, 9), vec![1, 2, 3, 4]);
    assert_eq!(read_whole(&block, &memory, 0), Vec::<u8>::new());
}

#[test]
fn access_is_contained_when_it_starts_and_ends_inside() {
    let block = GLBuffer { handle: 1, bytes: 4 };
    assert!(contains(&block, 0, 4));
    assert!(contains(&block, 3, 1));
    assert!(contains(&block, 3, 0));
    assert!(!contains(&block, 3, 2));
    assert!(!contains(&block, 4, 0));
    assert!(!contains(&block, 4, 1));
    assert!(!contains(&block, usize::MAX, usize::MAX));
    assert!(!contains(&GLBuffer { handle: 1, bytes: 0 }, 0, 0));
}
