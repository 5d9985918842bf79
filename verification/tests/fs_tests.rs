use rust_kernel::heap::init_heap;
use rust_kernel::ramfs::fs_init;
use rust_kernel::ramfs::NodeType;
use rust_kernel::syscalls::syscall;
use rust_kernel::syscalls::Syscall;

#[test]
fn touch_write_close_open_read_round_trips() {
    let mut heap = init_heap();
    let mut fs = fs_init(&mut heap).unwrap();
    let file = fs.fs_touch(&mut heap, b"a").unwrap();
    let fd = fs.fs_open(file);
    assert_eq!(fd, 0);
    let hello = vec![b'h', b'e', b'l', b'l', b'o'];
    assert_eq!(fs.fs_write(fd, &hello, 5), 5);
    fs.fs_close(fd);
    let fd = fs.fs_open(file);
    let mut buf = vec![0u8; 5];
    assert_eq!(fs.fs_read(fd, &mut buf, 5), 5);
    assert_eq!(buf, hello);
    assert_eq!(fs.fs_read(fd, &mut buf, 5), 0);
}

#[test]
fn the_root_is_a_directory_named_slash() {
    let mut heap = init_heap();
    let fs = fs_init(&mut heap).unwrap();
    let root = fs.fs_root();
    assert_eq!(root, 0);
    assert_eq!(fs.nodes[root].node_type, NodeType::Directory);
    assert_eq!(fs.nodes[root].name[0], b'/');
    assert_eq!(fs.nodes[root].name[1], 0);
    assert_eq!(fs.nodes[root].name.len(), 32);
}

#[test]
fn touched_files_hang_under_the_root() {
    let mut heap = init_heap();
    let mut fs = fs_init(&mut heap).unwrap();
    let a = fs.fs_touch(&mut heap, b"a").unwrap();
    let b = fs.fs_touch(&mut heap, b"b").unwrap();
    assert_eq!(fs.nodes[0].children, vec![a, b]);
    assert_eq!(fs.nodes[a].parent, Some(0));
    assert_eq!(fs.nodes[a].node_type, NodeType::File);
    assert_eq!(fs.nodes[a].size, 0);
    assert_eq!(fs.nodes[a].data.len(), 1024);
}

#[test]
fn find_child_matches_by_prefix_first_match_wins() {
    let mut heap = init_heap();
    let mut fs = fs_init(&mut heap).unwrap();
    let ab = fs.fs_touch(&mut heap, b"ab").unwrap();
    let ac = fs.fs_touch(&mut heap, b"ac").unwrap();
    // a full name finds its node
    assert_eq!(fs.fs_find_child(0, b"ab"), Some(ab));
    // the lookup is a byte-wise prefix match: "a" already matches "ab"
    assert_eq!(fs.fs_find_child(0, b"a"), Some(ab));
    assert_eq!(fs.fs_find_child(0, b"ac"), Some(ac));
    assert_eq!(fs.fs_find_child(0, b"zz"), None);
    let _ = ac;
}

#[test]
fn add_child_refuses_a_seventeenth_child() {
    let mut heap = init_heap();
    let mut fs = fs_init(&mut heap).unwrap();
    for _ in 0..16 {
        fs.fs_touch(&mut heap, b"x").unwrap();
    }
    assert_eq!(fs.nodes[0].children.len(), 16);
    let extra = fs.fs_touch(&mut heap, b"y").unwrap();
    assert_eq!(fs.nodes[0].children.len(), 16);
    assert_eq!(fs.nodes[extra].parent, None);
}

#[test]
fn long_names_are_truncated_to_thirty_one_bytes() {
    let mut heap = init_heap();
    let mut fs = fs_init(&mut heap).unwrap();
    let long: Vec<u8> = (0..40).map(|i| b'a' + (i % 26)).collect();
    let id = fs.fs_create_node(&mut heap, &long, NodeType::File).unwrap();
    assert_eq!(fs.nodes[id].name.len(), 32);
    assert_eq!(&fs.nodes[id].name[..31], &long[..31]);
    assert_eq!(fs.nodes[id].name[31], 0);
}

#[test]
fn reads_and_writes_through_bad_descriptors_fail() {
    let mut heap = init_heap();
    let mut fs = fs_init(&mut heap).unwrap();
    let mut buf = vec![0u8; 4];
    assert_eq!(fs.fs_read(-1, &mut buf, 4), -1);
    assert_eq!(fs.fs_read(99, &mut buf, 4), -1);
    assert_eq!(fs.fs_read(3, &mut buf, 4), -1);
    assert_eq!(fs.fs_write(-1, &buf, 4), -1);
    // a descriptor opened on the root refuses reads: not a file
    let fd = fs.fs_open(0);
    assert_eq!(fs.fs_read(fd, &mut buf, 4), -1);
    assert_eq!(fs.fs_write(fd, &buf, 4), -1);
    // closing makes the descriptor bad again
    let file = fs.fs_touch(&mut heap, b"f").unwrap();
    let fd = fs.fs_open(file);
    fs.fs_close(fd);
    assert_eq!(fs.fs_read(fd, &mut buf, 4), -1);
}

#[test]
fn the_descriptor_table_holds_sixteen_open_files() {
    let mut heap = init_heap();
    let mut fs = fs_init(&mut heap).unwrap();
    let file = fs.fs_touch(&mut heap, b"f").unwrap();
    for expected in 0..16 {
        assert_eq!(fs.fs_open(file), expected);
    }
    assert_eq!(fs.fs_open(file), -1);
    fs.fs_close(5);
    assert_eq!(fs.fs_open(file), 5);
}

#[test]
fn writes_past_the_fixed_buffer_are_refused() {
    let mut heap = init_heap();
    let mut fs = fs_init(&mut heap).unwrap();
    let file = fs.fs_touch(&mut heap, b"f").unwrap();
    let fd = fs.fs_open(file);
    let big = vec![7u8; 1025];
    assert_eq!(fs.fs_write(fd, &big, 1025), -1);
    assert_eq!(fs.fs_write(fd, &big, 1024), 1024);
    let one = vec![7u8];
    assert_eq!(fs.fs_write(fd, &one, 1), -1);
}

#[test]
fn offsets_advance_across_partial_reads_and_writes() {
    let mut heap = init_heap();
    let mut fs = fs_init(&mut heap).unwrap();
    let file = fs.fs_touch(&mut heap, b"f").unwrap();
    let fd = fs.fs_open(file);
    assert_eq!(fs.fs_write(fd, &vec![1, 2, 3], 3), 3);
    assert_eq!(fs.fs_write(fd, &vec![4, 5], 2), 2);
    assert_eq!(fs.nodes[file].size, 5);
    fs.fs_close(fd);
    let fd = fs.fs_open(file);
    let mut buf = vec![0u8; 3];
    assert_eq!(fs.fs_read(fd, &mut buf, 3), 3);
    assert_eq!(buf, vec![1, 2, 3]);
    assert_eq!(fs.fs_read(fd, &mut buf, 3), 2);
    assert_eq!(&buf[..2], &[4, 5]);
}

#[test]
fn syscalls_dispatch_to_the_filesystem() {
    let mut heap = init_heap();
    let mut fs = fs_init(&mut heap).unwrap();
    let file = fs.fs_touch(&mut heap, b"f").unwrap();
    let mut buf = vec![b'h', b'i'];
    let fd = syscall(&mut fs, Syscall::Open.number(), file, &mut buf, 0);
    assert_eq!(fd, 0);
    assert_eq!(syscall(&mut fs, Syscall::Write.number(), fd as usize, &mut buf, 2), 2);
    assert_eq!(syscall(&mut fs, Syscall::Close.number(), fd as usize, &mut buf, 0), 0);
    let fd = syscall(&mut fs, Syscall::Open.number(), file, &mut buf, 0);
    let mut out = vec![0u8; 2];
    assert_eq!(syscall(&mut fs, Syscall::Read.number(), fd as usize, &mut out, 2), 2);
    assert_eq!(out, vec![b'h', b'i']);
    assert_eq!(syscall(&mut fs, 9, 0, &mut out, 0), -1);
}
