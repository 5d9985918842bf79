//! RAM filesystem: a flat-rooted tree of nodes and a fixed 16-slot file
//! descriptor table. The raw node pointers of the running kernel become
//! node ids into a pool, and the parent/child pointers become ids; each
//! node's record and each file's fixed 1 KiB data buffer are still carved
//! out of the kernel heap, so allocator exhaustion surfaces exactly where
//! it would on the machine.

use vstd::prelude::*;
use vstd::std_specs::vec::vec_index_mut;
use crate::heap::Heap;
use crate::heap::spec_align16;
use crate::heap::spec_no_fit;
use crate::heap::spec_kmalloc_blocks;
use crate::heap::spec_kmalloc_ret;

verus! {

pub const MAX_NAME: usize = 32;
pub const MAX_CHILDREN: usize = 16;
pub const MAX_OPEN_FILES: usize = 16;
pub const FILE_CAPACITY: usize = 1024;
/// Byte size of one node record on the 32-bit target: the 32-byte name,
/// the kind word, the size word, the data pointer, the parent pointer,
/// sixteen child pointers and the child count.
pub const FS_NODE_SIZE: usize = 116;

#[derive(PartialEq, Eq, Copy, Clone, Structural, Debug)]
pub enum NodeType {
    File,
    Directory,
}

/// One filesystem node. `parent` and `children` hold node ids; `heap_addr`
/// is where the record itself sits in the kernel heap, and for a file
/// `data_addr` is where its 1 KiB buffer sits (0 while unattached).
pub struct FSNode {
    pub name: Vec<u8>,
    pub node_type: NodeType,
    pub size: usize,
    pub data: Vec<u8>,
    pub data_addr: usize,
    pub heap_addr: usize,
    pub parent: Option<usize>,
    pub children: Vec<usize>,
}

/// One slot of the file-descriptor table.
#[derive(Clone, Copy, PartialEq, Eq, Structural, Debug)]
pub struct FileDescriptor {
    pub node: usize,
    pub offset: usize,
    pub used: bool,
}

/// A name as it is stored: 32 bytes, the first at most 31 bytes of the
/// given name followed by NUL padding.
pub open spec fn spec_padded_name(name: Seq<u8>) -> Seq<u8> {
    Seq::new(
        MAX_NAME as nat,
        |i: int| if i < name.len() && i < MAX_NAME - 1 {
            name[i]
        } else {
            0u8
        },
    )
}

/// A stored name matches a looked-up name when the looked-up bytes are a
/// prefix of the stored 32-byte buffer (the lookup the kernel performs:
/// names sharing a prefix are not distinguished, first match wins).
pub open spec fn spec_name_matches(stored: Seq<u8>, name: Seq<u8>) -> bool {
    name.len() <= stored.len() && forall|k: int| 0 <= k < name.len() ==> stored[k] == name[k]
}

/// All fields equal except possibly `children`.
pub open spec fn spec_node_eq_except_children(a: FSNode, b: FSNode) -> bool {
    &&& a.name@ == b.name@
    &&& a.node_type == b.node_type
    &&& a.size == b.size
    &&& a.data@ == b.data@
    &&& a.data_addr == b.data_addr
    &&& a.heap_addr == b.heap_addr
    &&& a.parent == b.parent
}

/// All fields equal except possibly `parent`.
pub open spec fn spec_node_eq_except_parent(a: FSNode, b: FSNode) -> bool {
    &&& a.name@ == b.name@
    &&& a.node_type == b.node_type
    &&& a.size == b.size
    &&& a.data@ == b.data@
    &&& a.data_addr == b.data_addr
    &&& a.heap_addr == b.heap_addr
    &&& a.children@ == b.children@
}

/// All fields equal except possibly `size` and `data`.
pub open spec fn spec_node_eq_except_contents(a: FSNode, b: FSNode) -> bool {
    &&& a.name@ == b.name@
    &&& a.node_type == b.node_type
    &&& a.data_addr == b.data_addr
    &&& a.heap_addr == b.heap_addr
    &&& a.parent == b.parent
    &&& a.children@ == b.children@
}

/// The descriptor `fd` is valid for reading or writing: in range, in use,
/// and referring to a file node.
pub open spec fn spec_fd_ok(nodes: Seq<FSNode>, fds: Seq<FileDescriptor>, fd: int) -> bool {
    &&& 0 <= fd < fds.len()
    &&& fds[fd].used
    &&& (fds[fd].node as int) < nodes.len()
    &&& nodes[fds[fd].node as int].node_type == NodeType::File
}

/// How many bytes a read of `size` bytes through `fd` returns: what is
/// asked for, capped at the bytes between the offset and the file size.
pub open spec fn spec_read_count(
    nodes: Seq<FSNode>,
    fds: Seq<FileDescriptor>,
    fd: int,
    size: int,
) -> int {
    let d = fds[fd];
    let n = nodes[d.node as int];
    if size > n.size - d.offset {
        n.size - d.offset
    } else {
        size
    }
}

/// Slot `i` is the first unused descriptor slot.
pub open spec fn spec_is_first_free_fd(fds: Seq<FileDescriptor>, i: int) -> bool {
    &&& 0 <= i < fds.len()
    &&& !fds[i].used
    &&& forall|k: int| 0 <= k < i ==> fds[k].used
}

/// The index of the first unused descriptor slot, or `None` when the
/// table is full.
pub open spec fn spec_first_free_fd(fds: Seq<FileDescriptor>) -> Option<int> {
    if exists|i: int| spec_is_first_free_fd(fds, i) {
        Some(choose|i: int| spec_is_first_free_fd(fds, i))
    } else {
        None
    }
}

/// What `fs_open(node)` does to the descriptor table: the first unused
/// slot is claimed with offset 0 and its index returned, or every slot is
/// in use and -1 is returned.
pub open spec fn spec_open_step(
    pre: Seq<FileDescriptor>,
    node: usize,
    post: Seq<FileDescriptor>,
    r: int,
) -> bool {
    match spec_first_free_fd(pre) {
        Some(i) => post == pre.update(i, FileDescriptor { node, offset: 0, used: true }) && r == i,
        None => post == pre && r == -1,
    }
}

/// What `fs_read(fd, buf, size)` does: on a bad descriptor nothing and -1;
/// otherwise the next `spec_read_count` bytes of the file are copied to
/// the front of `buf`, the offset advances by that count, and the count is
/// returned.
pub open spec fn spec_read_step(
    nodes: Seq<FSNode>,
    pre_fds: Seq<FileDescriptor>,
    fd: int,
    size: int,
    pre_buf: Seq<u8>,
    post_fds: Seq<FileDescriptor>,
    post_buf: Seq<u8>,
    r: int,
) -> bool {
    if !spec_fd_ok(nodes, pre_fds, fd) {
        post_fds == pre_fds && post_buf == pre_buf && r == -1
    } else {
        let d = pre_fds[fd];
        let n = nodes[d.node as int];
        let cnt = spec_read_count(nodes, pre_fds, fd, size);
        &&& r == cnt
        &&& post_buf == Seq::new(
            pre_buf.len(),
            |k: int| if k < cnt {
                n.data@[d.offset + k]
            } else {
                pre_buf[k]
            },
        )
        &&& post_fds == pre_fds.update(
            fd,
            FileDescriptor { node: d.node, offset: (d.offset + cnt) as usize, used: true },
        )
    }
}

/// What `fs_write(fd, buf, size)` does: on a bad descriptor, or a write
/// that would run past the file's fixed buffer, nothing and -1; otherwise
/// `size` bytes of `buf` land in the file at the current offset, the
/// offset advances, the file size grows to the offset where it passed it,
/// and `size` is returned.
pub open spec fn spec_write_step(
    pre_nodes: Seq<FSNode>,
    pre_fds: Seq<FileDescriptor>,
    fd: int,
    size: int,
    buf: Seq<u8>,
    post_nodes: Seq<FSNode>,
    post_fds: Seq<FileDescriptor>,
    r: int,
) -> bool {
    if !spec_fd_ok(pre_nodes, pre_fds, fd) {
        post_nodes == pre_nodes && post_fds == pre_fds && r == -1
    } else {
        let d = pre_fds[fd];
        let ni = d.node as int;
        let n = pre_nodes[ni];
        if d.offset + size > n.data@.len() {
            post_nodes == pre_nodes && post_fds == pre_fds && r == -1
        } else {
            &&& r == size
            &&& post_nodes.len() == pre_nodes.len()
            &&& (forall|m: int| 0 <= m < pre_nodes.len() && m != ni ==> post_nodes[m]
                == pre_nodes[m])
            &&& spec_node_eq_except_contents(post_nodes[ni], n)
            &&& post_nodes[ni].data@ == Seq::new(
                n.data@.len(),
                |k: int| if d.offset <= k < d.offset + size {
                    buf[k - d.offset]
                } else {
                    n.data@[k]
                },
            )
            &&& post_nodes[ni].size == if d.offset + size > n.size {
                d.offset + size
            } else {
                n.size as int
            }
            &&& post_fds == pre_fds.update(
                fd,
                FileDescriptor { node: d.node, offset: (d.offset + size) as usize, used: true },
            )
        }
    }
}

/// What `fs_close(fd)` does: an in-range slot is marked unused, anything
/// else is ignored.
pub open spec fn spec_close_step(
    pre: Seq<FileDescriptor>,
    fd: int,
    post: Seq<FileDescriptor>,
) -> bool {
    if 0 <= fd < pre.len() {
        post == pre.update(
            fd,
            FileDescriptor { node: pre[fd].node, offset: pre[fd].offset, used: false },
        )
    } else {
        post == pre
    }
}

/// What `fs_add_child(parent, child)` does to the node pool: with a bad id
/// or a full parent nothing; otherwise the child id is appended to the
/// parent's children and the child's parent link is set.
pub open spec fn spec_add_child_step(
    pre: Seq<FSNode>,
    parent: usize,
    child: usize,
    post: Seq<FSNode>,
) -> bool {
    if parent >= pre.len() || child >= pre.len() {
        post == pre
    } else if pre[parent as int].children@.len() >= MAX_CHILDREN {
        post == pre
    } else if parent == child {
        &&& post.len() == pre.len()
        &&& (forall|m: int| 0 <= m < pre.len() && m != parent ==> post[m] == pre[m])
        &&& post[parent as int].children@ == pre[parent as int].children@.push(child)
        &&& post[parent as int].parent == Some(parent)
        &&& post[parent as int].name@ == pre[parent as int].name@
        &&& post[parent as int].node_type == pre[parent as int].node_type
        &&& post[parent as int].size == pre[parent as int].size
        &&& post[parent as int].data@ == pre[parent as int].data@
        &&& post[parent as int].data_addr == pre[parent as int].data_addr
        &&& post[parent as int].heap_addr == pre[parent as int].heap_addr
    } else {
        &&& post.len() == pre.len()
        &&& (forall|m: int| 0 <= m < pre.len() && m != parent && m != child ==> post[m] == pre[m])
        &&& spec_node_eq_except_children(post[parent as int], pre[parent as int])
        &&& post[parent as int].children@ == pre[parent as int].children@.push(child)
        &&& spec_node_eq_except_parent(post[child as int], pre[child as int])
        &&& post[child as int].parent == Some(parent)
    }
}

/// The filesystem handle: the node pool (the root is node 0) and the
/// descriptor table.
pub struct Fs {
    pub nodes: Vec<FSNode>,
    pub root: usize,
    pub fds: Vec<FileDescriptor>,
}

impl Fs {
    pub open spec fn wf(self) -> bool {
        &&& self.fds@.len() == MAX_OPEN_FILES
        &&& self.nodes@.len() >= 1
        &&& self.root == 0
        &&& self.nodes@[0].node_type == NodeType::Directory
        &&& (forall|i: int| 0 <= i < self.nodes@.len() ==> (#[trigger] self.nodes@[i]).name@.len()
            == MAX_NAME)
        &&& (forall|i: int| 0 <= i < self.nodes@.len() ==> (#[trigger] self.nodes@[i]).children@.len()
            <= MAX_CHILDREN)
        &&& (forall|i: int, k: int|
            0 <= i < self.nodes@.len() && 0 <= k < self.nodes@[i].children@.len()
                ==> (#[trigger] self.nodes@[i].children@[k]) < self.nodes@.len())
        &&& (forall|i: int| 0 <= i < self.nodes@.len() && (#[trigger] self.nodes@[i]).node_type
            == NodeType::File ==> self.nodes@[i].size <= self.nodes@[i].data@.len()
            && self.nodes@[i].data@.len() <= FILE_CAPACITY)
        &&& (forall|i: int| 0 <= i < self.nodes@.len() && (#[trigger] self.nodes@[i]).node_type
            == NodeType::Directory ==> self.nodes@[i].data@.len() == 0 && self.nodes@[i].size == 0)
        &&& (forall|j: int| 0 <= j < self.fds@.len() && spec_fd_ok(self.nodes@, self.fds@, j)
            ==> (#[trigger] self.fds@[j]).offset
                <= self.nodes@[self.fds@[j].node as int].size)
        &&& (forall|j: int| 0 <= j < self.fds@.len() && (#[trigger] self.fds@[j]).used
            && self.fds@[j].node >= self.nodes@.len() ==> self.fds@[j].offset == 0)
    }

    /// The id of the root directory.
    pub fn fs_root(&self) -> (r: usize)
        ensures
            r == self.root,
    {
        self.root
    }

    /// Allocate a node record in the kernel heap and append a fresh node
    /// to the pool: name copied NUL-padded, empty, unattached. Fails
    /// exactly when the heap has no room for the record.
    pub fn fs_create_node(&mut self, heap: &mut Heap, name: &[u8], ty: NodeType) -> (r: Option<
        usize,
    >)
        requires
            old(self).wf(),
            old(heap).wf(),
        ensures
            final(self).wf(),
            final(heap).wf(),
            final(heap).blocks@ == spec_kmalloc_blocks(old(heap).blocks@, FS_NODE_SIZE),
            final(self).fds@ == old(self).fds@,
            final(self).root == old(self).root,
            r is Some <==> !spec_no_fit(old(heap).blocks@, spec_align16(FS_NODE_SIZE as int)),
            r is None ==> final(self).nodes@ == old(self).nodes@ && final(heap).blocks@ == old(
                heap,
            ).blocks@,
            r is Some ==> {
                let id = r.unwrap() as int;
                &&& id == old(self).nodes@.len()
                &&& final(self).nodes@.len() == old(self).nodes@.len() + 1
                &&& (forall|m: int| 0 <= m < old(self).nodes@.len() ==> final(self).nodes@[m]
                    == old(self).nodes@[m])
                &&& final(self).nodes@[id].name@ == spec_padded_name(name@)
                &&& final(self).nodes@[id].node_type == ty
                &&& final(self).nodes@[id].size == 0
                &&& final(self).nodes@[id].data@.len() == 0
                &&& final(self).nodes@[id].data_addr == 0
                &&& final(self).nodes@[id].parent is None
                &&& final(self).nodes@[id].children@.len() == 0
                &&& Some(final(self).nodes@[id].heap_addr) == spec_kmalloc_ret(
                    old(heap).blocks@,
                    FS_NODE_SIZE,
                )
            },
            ty == NodeType::File || ty == NodeType::Directory,
    {
        let addr = match heap.kmalloc(FS_NODE_SIZE) {
            Some(a) => a,
            None => {
                proof {
                    if !spec_no_fit(old(heap).blocks@, spec_align16(FS_NODE_SIZE as int)) {
                        let j = choose|j: int|
                            0 <= j < old(heap).blocks@.len() && crate::heap::spec_fits(
                                old(heap).blocks@[j],
                                spec_align16(FS_NODE_SIZE as int),
                            );
                        crate::heap::lemma_first_fit_exists(
                            old(heap).blocks@,
                            spec_align16(FS_NODE_SIZE as int),
                            j,
                        );
                    }
                }
                return None;
            },
        };
        let mut stored: Vec<u8> = Vec::new();
        let mut i: usize = 0;
        while i < MAX_NAME
            invariant
                i <= MAX_NAME,
                stored@.len() == i,
                forall|k: int| 0 <= k < i ==> stored@[k] == spec_padded_name(name@)[k],
            decreases MAX_NAME - i,
        {
            if i < name.len() && i < MAX_NAME - 1 {
                stored.push(name[i]);
            } else {
                stored.push(0);
            }
            i = i + 1;
        }
        let id = self.nodes.len();
        self.nodes.push(
            FSNode {
                name: stored,
                node_type: ty,
                size: 0,
                data: Vec::new(),
                data_addr: 0,
                heap_addr: addr,
                parent: None,
                children: Vec::new(),
            },
        );
        proof {
            assert(self.nodes@[id as int].name@ =~= spec_padded_name(name@));
        }
        Some(id)
    }

    /// Append `child` to `parent`'s children and set the child's parent
    /// link; a bad id or a full parent changes nothing.
    pub fn fs_add_child(&mut self, parent: usize, child: usize)
        requires
            old(self).wf(),
        ensures
            final(self).wf(),
            spec_add_child_step(old(self).nodes@, parent, child, final(self).nodes@),
            final(self).fds@ == old(self).fds@,
            final(self).root == old(self).root,
    {
        let n = self.nodes.len();
        if parent >= n || child >= n {
            return;
        }
        if self.nodes[parent].children.len() < MAX_CHILDREN {
            let p = vec_index_mut(&mut self.nodes, parent);
            p.children.push(child);
            let c = vec_index_mut(&mut self.nodes, child);
            c.parent = Some(parent);
        }
    }

    /// The first child of `parent` whose stored name the given name is a
    /// prefix of, or `None`. This is the lookup the kernel performs; names
    /// sharing a prefix are not told apart.
    pub fn fs_find_child(&self, parent: usize, name: &[u8]) -> (r: Option<usize>)
        requires
            self.wf(),
        ensures
            match r {
                Some(c) => exists|i: int|
                    {
                        &&& 0 <= i < self.nodes@[parent as int].children@.len()
                        &&& parent < self.nodes@.len()
                        &&& c == self.nodes@[parent as int].children@[i]
                        &&& spec_name_matches(
                            self.nodes@[self.nodes@[parent as int].children@[i] as int].name@,
                            name@,
                        )
                        &&& forall|j: int| 0 <= j < i ==> !spec_name_matches(
                            self.nodes@[
                                #[trigger] self.nodes@[parent as int].children@[j] as int].name@,
                            name@,
                        )
                    },
                None => parent >= self.nodes@.len() || forall|i: int|
                    0 <= i < self.nodes@[parent as int].children@.len() ==> !spec_name_matches(
                        self.nodes@[
                            #[trigger] self.nodes@[parent as int].children@[i] as int].name@,
                        name@,
                    ),
            },
    {
        if parent >= self.nodes.len() {
            return None;
        }
        let count = self.nodes[parent].children.len();
        let mut i: usize = 0;
        while i < count
            invariant
                self.wf(),
                parent < self.nodes@.len(),
                count == self.nodes@[parent as int].children@.len(),
                i <= count,
                forall|j: int| 0 <= j < i ==> !spec_name_matches(
                    self.nodes@[#[trigger] self.nodes@[parent as int].children@[j] as int].name@,
                    name@,
                ),
            decreases count - i,
        {
            let c = self.nodes[parent].children[i];
            if self.name_matches(c, name) {
                return Some(c);
            }
            i = i + 1;
        }
        None
    }

    /// Whether the given name is a byte-wise prefix of node `c`'s stored
    /// name buffer.
    fn name_matches(&self, c: usize, name: &[u8]) -> (r: bool)
        requires
            self.wf(),
            c < self.nodes@.len(),
        ensures
            r == spec_name_matches(self.nodes@[c as int].name@, name@),
    {
        let stored_len = self.nodes[c].name.len();
        if name.len() > stored_len {
            return false;
        }
        let mut k: usize = 0;
        while k < name.len()
            invariant
                self.wf(),
                c < self.nodes@.len(),
                k <= name@.len(),
                name@.len() <= self.nodes@[c as int].name@.len(),
                forall|m: int| 0 <= m < k ==> self.nodes@[c as int].name@[m] == name@[m],
            decreases name@.len() - k,
        {
            if self.nodes[c].name[k] != name[k] {
                return false;
            }
            k = k + 1;
        }
        true
    }

    /// Create a file named `path` directly under the root: a node record
    /// and a fresh 1 KiB data buffer are carved from the kernel heap and
    /// the file is attached to the root if the root has room. Fails
    /// exactly when the heap cannot hold the node record.
    pub fn fs_touch(&mut self, heap: &mut Heap, path: &[u8]) -> (r: Option<usize>)
        requires
            old(self).wf(),
            old(heap).wf(),
        ensures
            final(self).wf(),
            final(heap).wf(),
            final(self).root == old(self).root,
            final(self).fds@ == old(self).fds@,
            r is Some <==> !spec_no_fit(old(heap).blocks@, spec_align16(FS_NODE_SIZE as int)),
            r is None ==> final(self).nodes@ == old(self).nodes@ && final(heap).blocks@ == old(
                heap,
            ).blocks@,
            r is Some ==> {
                let id = r.unwrap() as int;
                let mid = spec_kmalloc_blocks(old(heap).blocks@, FS_NODE_SIZE);
                let data_alloc = spec_kmalloc_ret(mid, FILE_CAPACITY);
                let attached = old(self).nodes@[0].children@.len() < MAX_CHILDREN;
                &&& id == old(self).nodes@.len()
                &&& final(self).nodes@.len() == old(self).nodes@.len() + 1
                &&& (forall|m: int| 1 <= m < old(self).nodes@.len() ==> final(self).nodes@[m]
                    == old(self).nodes@[m])
                &&& final(self).nodes@[id].name@ == spec_padded_name(path@)
                &&& final(self).nodes@[id].node_type == NodeType::File
                &&& final(self).nodes@[id].size == 0
                &&& final(self).nodes@[id].data@.len() == (if data_alloc is Some {
                    FILE_CAPACITY as int
                } else {
                    0
                })
                &&& (forall|k: int| 0 <= k < final(self).nodes@[id].data@.len()
                    ==> final(self).nodes@[id].data@[k] == 0u8)
                &&& final(self).nodes@[id].parent == (if attached {
                    Some(0usize)
                } else {
                    None::<usize>
                })
                &&& final(self).nodes@[id].children@.len() == 0
                &&& spec_node_eq_except_children(final(self).nodes@[0], old(self).nodes@[0])
                &&& final(self).nodes@[0].children@ == (if attached {
                    old(self).nodes@[0].children@.push(id as usize)
                } else {
                    old(self).nodes@[0].children@
                })
                &&& final(heap).blocks@ == spec_kmalloc_blocks(mid, FILE_CAPACITY)
            },
    {
        let id = match self.fs_create_node(heap, path, NodeType::File) {
            Some(id) => id,
            None => {
                return None;
            },
        };
        let data_addr = heap.kmalloc(FILE_CAPACITY);
        match data_addr {
            Some(a) => {
                let mut zeroes: Vec<u8> = Vec::new();
                let mut k: usize = 0;
                while k < FILE_CAPACITY
                    invariant
                        k <= FILE_CAPACITY,
                        zeroes@.len() == k,
                        forall|m: int| 0 <= m < k ==> zeroes@[m] == 0u8,
                    decreases FILE_CAPACITY - k,
                {
                    zeroes.push(0);
                    k = k + 1;
                }
                let node = vec_index_mut(&mut self.nodes, id);
                node.data = zeroes;
                node.data_addr = a;
            },
            None => {},
        }
        let ghost before_attach_nodes = self.nodes@;
        self.fs_add_child(0, id);
        proof {
            assert(before_attach_nodes[0].children@ == old(self).nodes@[0].children@);
            assert(id == before_attach_nodes.len() - 1);
        }
        Some(id)
    }

    /// Claim the first unused descriptor slot for `node` with offset 0 and
    /// return its index, or -1 when the table is full. The node id is
    /// stored as given; reads and writes check it.
    pub fn fs_open(&mut self, node: usize) -> (r: i32)
        requires
            old(self).wf(),
        ensures
            final(self).wf(),
            final(self).nodes@ == old(self).nodes@,
            final(self).root == old(self).root,
            spec_open_step(old(self).fds@, node, final(self).fds@, r as int),
    {
        match self.first_free_fd() {
            Some(i) => {
                proof {
                    assert(spec_is_first_free_fd(self.fds@, i as int));
                    assert forall|k: int|
                        spec_is_first_free_fd(self.fds@, k) implies k == i as int by {
                        if k < i as int {
                            assert(self.fds@[k].used);
                        }
                        if k > i as int {
                            assert(self.fds@[i as int].used);
                        }
                    }
                    assert(spec_first_free_fd(self.fds@) == Some(i as int));
                }
                self.fds[i] = FileDescriptor { node, offset: 0, used: true };
                i as i32
            },
            None => {
                proof {
                    if exists|k: int| spec_is_first_free_fd(self.fds@, k) {
                        let k = choose|k: int| spec_is_first_free_fd(self.fds@, k);
                        assert(self.fds@[k].used);
                    }
                }
                -1
            },
        }
    }

    /// The index of the first unused descriptor slot, if any.
    fn first_free_fd(&self) -> (r: Option<usize>)
        ensures
            match r {
                Some(i) => 0 <= i < self.fds@.len() && !self.fds@[i as int].used && forall|j: int|
                    0 <= j < i ==> self.fds@[j].used,
                None => forall|j: int| 0 <= j < self.fds@.len() ==> self.fds@[j].used,
            },
    {
        let n = self.fds.len();
        let mut i: usize = 0;
        while i < n
            invariant
                n == self.fds@.len(),
                i <= n,
                forall|j: int| 0 <= j < i ==> self.fds@[j].used,
            decreases n - i,
        {
            if !self.fds[i].used {
                return Some(i);
            }
            i = i + 1;
        }
        None
    }

    /// Copy up to `size` bytes from the file behind `fd` into the front of
    /// `buf`, advancing the offset; returns the byte count, or -1 for a
    /// bad descriptor or a non-file node.
    pub fn fs_read(&mut self, fd: i32, buf: &mut Vec<u8>, size: usize) -> (r: isize)
        requires
            old(self).wf(),
            old(buf)@.len() >= size,
        ensures
            final(self).wf(),
            final(self).nodes@ == old(self).nodes@,
            final(self).root == old(self).root,
            final(buf)@.len() == old(buf)@.len(),
            spec_read_step(
                old(self).nodes@,
                old(self).fds@,
                fd as int,
                size as int,
                old(buf)@,
                final(self).fds@,
                final(buf)@,
                r as int,
            ),
    {
        let ghost pre_nodes = self.nodes@;
        let ghost pre_fds = self.fds@;
        let ghost pre_buf = buf@;
        if fd < 0 || fd >= MAX_OPEN_FILES as i32 {
            return -1;
        }
        let fdi = fd as usize;
        let desc = self.fds[fdi];
        if !desc.used {
            return -1;
        }
        let ni = desc.node;
        if ni >= self.nodes.len() {
            return -1;
        }
        let is_file = match self.nodes[ni].node_type {
            NodeType::File => true,
            NodeType::Directory => false,
        };
        if !is_file {
            return -1;
        }
        let nsize = self.nodes[ni].size;
        let remaining = if size > nsize - desc.offset {
            nsize - desc.offset
        } else {
            size
        };
        let mut out: Vec<u8> = Vec::new();
        let buf_len = buf.len();
        let mut k: usize = 0;
        while k < buf_len
            invariant
                self.wf(),
                self.nodes@ == pre_nodes,
                self.fds@ == pre_fds,
                buf@ == pre_buf,
                buf_len == pre_buf.len(),
                fdi < self.fds@.len(),
                desc == self.fds@[fdi as int],
                desc.used,
                ni == desc.node,
                ni < self.nodes@.len(),
                self.nodes@[ni as int].node_type == NodeType::File,
                nsize == self.nodes@[ni as int].size,
                remaining == spec_read_count(pre_nodes, pre_fds, fdi as int, size as int),
                remaining <= size,
                desc.offset + remaining <= nsize,
                k <= buf_len,
                out@.len() == k,
                forall|m: int| 0 <= m < k ==> out@[m] == (if m < remaining {
                    pre_nodes[ni as int].data@[desc.offset + m]
                } else {
                    pre_buf[m]
                }),
            decreases buf_len - k,
        {
            if k < remaining {
                out.push(self.nodes[ni].data[desc.offset + k]);
            } else {
                out.push(buf[k]);
            }
            k = k + 1;
        }
        *buf = out;
        self.fds[fdi] = FileDescriptor { node: ni, offset: desc.offset + remaining, used: true };
        proof {
            assert(buf@ =~= Seq::new(
                pre_buf.len(),
                |k: int| if k < remaining as int {
                    pre_nodes[ni as int].data@[desc.offset + k]
                } else {
                    pre_buf[k]
                },
            ));
        }
        remaining as isize
    }

    /// Copy `size` bytes from the front of `buf` into the file behind
    /// `fd` at its offset, advancing the offset and growing the file size;
    /// returns `size`, or -1 for a bad descriptor, a non-file node, or a
    /// write that would run past the file's fixed buffer.
    pub fn fs_write(&mut self, fd: i32, buf: &Vec<u8>, size: usize) -> (r: isize)
        requires
            old(self).wf(),
            buf@.len() >= size,
        ensures
            final(self).wf(),
            final(self).root == old(self).root,
            spec_write_step(
                old(self).nodes@,
                old(self).fds@,
                fd as int,
                size as int,
                buf@,
                final(self).nodes@,
                final(self).fds@,
                r as int,
            ),
    {
        let ghost pre_nodes = self.nodes@;
        let ghost pre_fds = self.fds@;
        if fd < 0 || fd >= MAX_OPEN_FILES as i32 {
            return -1;
        }
        let fdi = fd as usize;
        let desc = self.fds[fdi];
        if !desc.used {
            return -1;
        }
        let ni = desc.node;
        if ni >= self.nodes.len() {
            return -1;
        }
        let is_file = match self.nodes[ni].node_type {
            NodeType::File => true,
            NodeType::Directory => false,
        };
        if !is_file {
            return -1;
        }
        let dlen = self.nodes[ni].data.len();
        let nsize = self.nodes[ni].size;
        if desc.offset > dlen || size > dlen - desc.offset {
            return -1;
        }
        let mut fresh: Vec<u8> = Vec::new();
        let mut k: usize = 0;
        while k < dlen
            invariant
                self.wf(),
                self.nodes@ == pre_nodes,
                self.fds@ == pre_fds,
                fdi < self.fds@.len(),
                desc == self.fds@[fdi as int],
                ni == desc.node,
                ni < self.nodes@.len(),
                dlen == self.nodes@[ni as int].data@.len(),
                desc.offset + size <= dlen,
                size <= buf@.len(),
                k <= dlen,
                fresh@.len() == k,
                forall|m: int| 0 <= m < k ==> fresh@[m] == (if desc.offset <= m < desc.offset
                    + size {
                    buf@[m - desc.offset]
                } else {
                    pre_nodes[ni as int].data@[m]
                }),
            decreases dlen - k,
        {
            if desc.offset <= k && k < desc.offset + size {
                fresh.push(buf[k - desc.offset]);
            } else {
                fresh.push(self.nodes[ni].data[k]);
            }
            k = k + 1;
        }
        let new_offset = desc.offset + size;
        let new_size = if new_offset > nsize {
            new_offset
        } else {
            nsize
        };
        let node = vec_index_mut(&mut self.nodes, ni);
        node.data = fresh;
        node.size = new_size;
        self.fds[fdi] = FileDescriptor { node: ni, offset: new_offset, used: true };
        proof {
            assert(self.nodes@[ni as int].data@ =~= Seq::new(
                pre_nodes[ni as int].data@.len(),
                |k: int| if desc.offset <= k < desc.offset + size {
                    buf@[k - desc.offset]
                } else {
                    pre_nodes[ni as int].data@[k]
                },
            ));
        }
        size as isize
    }

    /// Mark an in-range descriptor slot unused; a bad index is ignored.
    pub fn fs_close(&mut self, fd: i32)
        requires
            old(self).wf(),
        ensures
            final(self).wf(),
            final(self).nodes@ == old(self).nodes@,
            final(self).root == old(self).root,
            spec_close_step(old(self).fds@, fd as int, final(self).fds@),
    {
        if fd < 0 || fd >= MAX_OPEN_FILES as i32 {
            return;
        }
        let fdi = fd as usize;
        let desc = self.fds[fdi];
        self.fds[fdi] = FileDescriptor { node: desc.node, offset: desc.offset, used: false };
    }
}

/// There is a first unused descriptor slot as soon as any slot is unused.
pub proof fn lemma_first_free_fd_exists(fds: Seq<FileDescriptor>, j: int)
    requires
        0 <= j < fds.len(),
        !fds[j].used,
    ensures
        exists|i: int| spec_is_first_free_fd(fds, i),
    decreases j,
{
    if forall|k: int| 0 <= k < j ==> fds[k].used {
        assert(spec_is_first_free_fd(fds, j));
    } else {
        let k = choose|k: int| 0 <= k < j && !fds[k].used;
        lemma_first_free_fd_exists(fds, k);
    }
}

/// Filesystem round-trip: write a byte string to a file that can hold it,
/// close the descriptor, open the file again and read the string's length
/// back — the read returns that length and the front of the buffer holds
/// exactly the string. The intermediate states relate step for step as
/// the contracts of `fs_open`, `fs_write`, `fs_close` and `fs_read`
/// state; some descriptor slot must be free at the first open.
pub proof fn lemma_fs_round_trip(
    nodes: Seq<FSNode>,
    fds0: Seq<FileDescriptor>,
    n: usize,
    data: Seq<u8>,
    fds1: Seq<FileDescriptor>,
    fd1: int,
    nodes2: Seq<FSNode>,
    fds2: Seq<FileDescriptor>,
    rw: int,
    fds3: Seq<FileDescriptor>,
    fds4: Seq<FileDescriptor>,
    fd2: int,
    fds5: Seq<FileDescriptor>,
    buf0: Seq<u8>,
    buf1: Seq<u8>,
    r: int,
    free_slot: int,
)
    requires
        (n as int) < nodes.len(),
        nodes[n as int].node_type == NodeType::File,
        data.len() <= nodes[n as int].data@.len(),
        buf0.len() >= data.len(),
        0 <= free_slot < fds0.len(),
        !fds0[free_slot].used,
        spec_open_step(fds0, n, fds1, fd1),
        spec_write_step(nodes, fds1, fd1, data.len() as int, data, nodes2, fds2, rw),
        spec_close_step(fds2, fd1, fds3),
        spec_open_step(fds3, n, fds4, fd2),
        spec_read_step(nodes2, fds4, fd2, data.len() as int, buf0, fds5, buf1, r),
    ensures
        rw == data.len(),
        r == data.len(),
        buf1.subrange(0, data.len() as int) == data,
{
    let len = data.len() as int;
    // the first open claims the first free slot with offset 0.
    lemma_first_free_fd_exists(fds0, free_slot);
    let i1 = choose|i: int| spec_is_first_free_fd(fds0, i);
    assert(spec_first_free_fd(fds0) == Some(i1));
    assert(fds1 == fds0.update(i1, FileDescriptor { node: n, offset: 0, used: true }) && fd1
        == i1);
    // the write through that descriptor succeeds and lands at offset 0.
    assert(spec_fd_ok(nodes, fds1, fd1));
    assert(fds1[fd1].offset == 0);
    assert(rw == len);
    assert(nodes2[n as int].size >= len);
    assert(nodes2[n as int].data@.len() == nodes[n as int].data@.len());
    assert(forall|k: int| 0 <= k < len ==> nodes2[n as int].data@[k] == data[k]);
    // closing frees the slot, so the second open finds one.
    assert(fds3 == fds2.update(fd1, FileDescriptor {
        node: fds2[fd1].node,
        offset: fds2[fd1].offset,
        used: false,
    }));
    assert(!fds3[fd1].used);
    lemma_first_free_fd_exists(fds3, fd1);
    let i2 = choose|i: int| spec_is_first_free_fd(fds3, i);
    assert(spec_first_free_fd(fds3) == Some(i2));
    assert(fds4 == fds3.update(i2, FileDescriptor { node: n, offset: 0, used: true }) && fd2
        == i2);
    // the read sees the grown size at offset 0 and copies the bytes back.
    assert(spec_fd_ok(nodes2, fds4, fd2));
    assert(fds4[fd2].offset == 0);
    assert(spec_read_count(nodes2, fds4, fd2, len) == len);
    assert(r == len);
    assert forall|k: int| 0 <= k < len implies buf1[k] == data[k] by {
        assert(buf1[k] == nodes2[n as int].data@[k]);
    }
    assert(buf1.subrange(0, len) =~= data);
}

/// Build the filesystem: the root directory named "/" is allocated in the
/// kernel heap and the descriptor table starts empty. Fails exactly when
/// the heap has no room for the root's node record.
pub fn fs_init(heap: &mut Heap) -> (r: Option<Fs>)
    requires
        old(heap).wf(),
    ensures
        final(heap).wf(),
        final(heap).blocks@ == spec_kmalloc_blocks(old(heap).blocks@, FS_NODE_SIZE),
        r is Some <==> !spec_no_fit(old(heap).blocks@, spec_align16(FS_NODE_SIZE as int)),
        r is Some ==> {
            let fs = r.unwrap();
            &&& fs.wf()
            &&& fs.nodes@.len() == 1
            &&& fs.root == 0
            &&& fs.nodes@[0].name@ == spec_padded_name(seq![47u8])
            &&& fs.nodes@[0].node_type == NodeType::Directory
            &&& fs.nodes@[0].children@.len() == 0
            &&& forall|j: int| 0 <= j < MAX_OPEN_FILES ==> !(#[trigger] fs.fds@[j]).used
        },
{
    let addr = match heap.kmalloc(FS_NODE_SIZE) {
        Some(a) => a,
        None => {
            proof {
                if !spec_no_fit(old(heap).blocks@, spec_align16(FS_NODE_SIZE as int)) {
                    let j = choose|j: int|
                        0 <= j < old(heap).blocks@.len() && crate::heap::spec_fits(
                            old(heap).blocks@[j],
                            spec_align16(FS_NODE_SIZE as int),
                        );
                    crate::heap::lemma_first_fit_exists(
                        old(heap).blocks@,
                        spec_align16(FS_NODE_SIZE as int),
                        j,
                    );
                }
            }
            return None;
        },
    };
    let mut stored: Vec<u8> = Vec::new();
    stored.push(47);
    let mut i: usize = 1;
    while i < MAX_NAME
        invariant
            1 <= i <= MAX_NAME,
            stored@.len() == i,
            stored@[0] == 47u8,
            forall|k: int| 1 <= k < i ==> stored@[k] == 0u8,
        decreases MAX_NAME - i,
    {
        stored.push(0);
        i = i + 1;
    }
    let root = FSNode {
        name: stored,
        node_type: NodeType::Directory,
        size: 0,
        data: Vec::new(),
        data_addr: 0,
        heap_addr: addr,
        parent: None,
        children: Vec::new(),
    };
    let mut nodes: Vec<FSNode> = Vec::new();
    nodes.push(root);
    let mut fds: Vec<FileDescriptor> = Vec::new();
    let mut j: usize = 0;
    while j < MAX_OPEN_FILES
        invariant
            j <= MAX_OPEN_FILES,
            fds@.len() == j,
            forall|k: int| 0 <= k < j ==> !(#[trigger] fds@[k]).used,
        decreases MAX_OPEN_FILES - j,
    {
        fds.push(FileDescriptor { node: 0, offset: 0, used: false });
        j = j + 1;
    }
    let fs = Fs { nodes, root: 0, fds };
    proof {
        assert(fs.nodes@[0].name@ =~= spec_padded_name(seq![47u8]));
    }
    Some(fs)
}

} // verus!
