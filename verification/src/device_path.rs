//! UEFI device paths as byte sequences: the node walk, node classification and the
//! paths that the boot managers build themselves.
//!
//! A device path is a run of nodes. Each starts with a four-byte header (type,
//! sub-type, little-endian length that counts the header) and the run ends with an
//! *end entire* node.

use vstd::prelude::*;

use crate::efi::Guid;
use crate::le;

verus! {

/// Byte size of a node header.
pub const NODE_HDR_BYTES: usize = 4;

/// Sanity cap for [`device_path_size`]; real device paths are well under this.
pub const DEVICE_PATH_MAX_BYTES: usize = 65536;

pub const TYPE_MESSAGING: u8 = 0x03;

pub const TYPE_MEDIA: u8 = 0x04;

pub const TYPE_END: u8 = 0x7f;

pub const SUBTYPE_END_ENTIRE: u8 = 0xff;

pub const SUBTYPE_USB: u8 = 5;

pub const SUBTYPE_USB_CLASS: u8 = 15;

pub const SUBTYPE_USB_WWID: u8 = 16;

pub const SUBTYPE_HARD_DRIVE: u8 = 1;

pub const SUBTYPE_FILE_PATH: u8 = 4;

pub const SUBTYPE_PIWG_FIRMWARE_FILE: u8 = 6;

pub const SUBTYPE_PIWG_FIRMWARE_VOLUME: u8 = 7;

/// Byte size of a hard-drive node without its header.
pub const HARD_DRIVE_DATA_BYTES: usize = 38;

/// The bytes of an *end entire* node.
pub open spec fn end_entire() -> Seq<u8> {
    seq![TYPE_END, SUBTYPE_END_ENTIRE, 4u8, 0u8]
}

/// The four bytes of a node header.
pub open spec fn header_bytes(node_type: u8, sub_type: u8, length: u16) -> Seq<u8> {
    seq![node_type, sub_type] + le::bytes16(length)
}

/// A node's header.
#[derive(Debug, Clone, Copy, PartialEq, Eq, Structural)]
pub struct Header {
    pub node_type: u8,
    pub sub_type: u8,
    pub length: u16,
}

impl Header {
    /// True for the node that ends a whole device path.
    pub open spec fn spec_is_end_entire(self) -> bool {
        self.node_type == TYPE_END && self.sub_type == SUBTYPE_END_ENTIRE
    }

    pub fn is_end_entire(&self) -> (result: bool)
        ensures
            result == self.spec_is_end_entire(),
    {
        self.node_type == TYPE_END && self.sub_type == SUBTYPE_END_ENTIRE
    }
}

/// The header in the four bytes at `offset`.
pub open spec fn header_at(bytes: Seq<u8>, offset: int) -> Header {
    Header {
        node_type: bytes[offset],
        sub_type: bytes[offset + 1],
        length: le::at16(bytes, offset + 2) as u16,
    }
}

/// Reads the header at `offset`, where `bytes` holds all four bytes of it.
fn read_header(bytes: &[u8], offset: usize) -> (header: Option<Header>)
    ensures
        match header {
            Some(h) => offset + 4 <= bytes@.len() && h == header_at(bytes@, offset as int),
            None => offset + 4 > bytes@.len(),
        },
{
    if bytes.len() < NODE_HDR_BYTES || offset > bytes.len() - NODE_HDR_BYTES {
        return None;
    }
    match le::read_u16(bytes, offset + 2) {
        Some(length) => Some(
            Header { node_type: bytes[offset], sub_type: bytes[offset + 1], length },
        ),
        None => None,
    }
}

/// Encodes a header in four bytes.
fn encode_node_header(header: Header) -> (bytes: Vec<u8>)
    ensures
        bytes@ == header_bytes(header.node_type, header.sub_type, header.length),
{
    let mut bytes: Vec<u8> = vec![header.node_type, header.sub_type, 0, 0];
    le::write_u16(bytes.as_mut_slice(), 2, header.length);
    bytes
}

// ---------------------------------------------------------------------------
// Size
// ---------------------------------------------------------------------------

/// Where the walk from `offset` ends: the position just past the first *end entire*
/// node, or `None` where a header or the rest of a node is missing or a length cannot be
/// right (below the header size, or an *end entire* node longer than its header).
pub open spec fn walk_end(bytes: Seq<u8>, offset: int) -> Option<int>
    decreases bytes.len() - offset,
{
    if offset < 0 || offset + 4 > bytes.len() {
        None
    } else {
        let header = header_at(bytes, offset);
        if header.length < 4 {
            None
        } else if header.spec_is_end_entire() {
            if header.length == 4 {
                Some(offset + 4)
            } else {
                None
            }
        } else if offset + header.length > bytes.len() {
            None
        } else {
            walk_end(bytes, offset + header.length)
        }
    }
}

/// The bytes are one whole device path: the walk ends exactly where they end.
pub open spec fn well_formed(bytes: Seq<u8>) -> bool {
    walk_end(bytes, 0) == Some(bytes.len() as int)
}

/// The size that [`device_path_size`] reports.
pub open spec fn spec_device_path_size(bytes: Seq<u8>) -> int {
    match walk_end(bytes, 0) {
        Some(end) => if end <= DEVICE_PATH_MAX_BYTES {
            end
        } else {
            0
        },
        None => 0,
    }
}

/// A walk that ends has passed at least one header and stays within the bytes.
pub proof fn lemma_walk_end_bounds(bytes: Seq<u8>, offset: int)
    ensures
        walk_end(bytes, offset) matches Some(end) ==> offset + 4 <= end <= bytes.len(),
    decreases bytes.len() - offset,
{
    if 0 <= offset && offset + 4 <= bytes.len() {
        let header = header_at(bytes, offset);
        if header.length >= 4 && offset + header.length <= bytes.len() {
            lemma_walk_end_bounds(bytes, offset + header.length);
        }
    }
}

/// Compute the length of the device path at the start of `bytes` (walks until the
/// *end entire* node).
///
/// Returns 0 on malformed input (a missing header, a node length below the four-byte
/// header minimum, an *end entire* node of another length, or a total size above the
/// sanity cap) so callers can fail cleanly.
pub fn device_path_size(bytes: &[u8]) -> (size: usize)
    ensures
        size == spec_device_path_size(bytes@),
        size != 0 ==> 4 <= size <= bytes@.len() && size <= DEVICE_PATH_MAX_BYTES,
{
    let mut walk = DevicePathWalk::new();
    proof {
        lemma_walk_end_bounds(bytes@, 0);
    }
    loop
        invariant
            walk.consumed <= DEVICE_PATH_MAX_BYTES,
            walk_end(bytes@, 0) == walk_end(bytes@, walk.consumed as int),
            walk_end(bytes@, 0) matches Some(end) ==> 4 <= end <= bytes@.len(),
        decreases DEVICE_PATH_MAX_BYTES - walk.consumed,
    {
        proof {
            lemma_walk_end_bounds(bytes@, walk.consumed as int);
        }
        if !walk.wants_header() {
            return 0;
        }
        let header = match read_header(bytes, walk.consumed) {
            Some(header) => header,
            None => return 0,
        };
        proof {
            lemma_walk_end_bounds(bytes@, walk.consumed + header.length);
        }
        match walk.feed(header) {
            WalkStep::Continue => {},
            WalkStep::End(size) => return size,
            WalkStep::Malformed => return 0,
        }
    }
}

/// What a node header does to a walk.
#[derive(Debug, Clone, Copy, PartialEq, Eq, Structural)]
pub enum WalkStep {
    /// The node was passed; the next header follows it.
    Continue,
    /// The node ended the path, whose size this is.
    End(usize),
    /// The path is malformed or exceeds the sanity cap.
    Malformed,
}

/// A device-path walk that is fed one header at a time, for callers that reach the
/// path through memory they do not hold as a slice.
#[derive(Debug, Clone, Copy)]
pub struct DevicePathWalk {
    /// Bytes of the nodes passed so far: the offset of the next header.
    pub consumed: usize,
}

impl DevicePathWalk {
    /// A walk that has passed no node yet.
    pub fn new() -> (walk: Self)
        ensures
            walk.consumed == 0,
    {
        DevicePathWalk { consumed: 0 }
    }

    /// False once fewer bytes than a header remain within the sanity cap: the walk must
    /// then end without another read.
    pub fn wants_header(&self) -> (result: bool)
        ensures
            result == (self.consumed <= DEVICE_PATH_MAX_BYTES - NODE_HDR_BYTES),
    {
        self.consumed <= DEVICE_PATH_MAX_BYTES - NODE_HDR_BYTES
    }

    /// Pass the node whose header was read at `consumed`.
    pub fn feed(&mut self, header: Header) -> (step: WalkStep)
        requires
            old(self).consumed <= DEVICE_PATH_MAX_BYTES - NODE_HDR_BYTES,
        ensures
            step == if header.length < 4 || (header.spec_is_end_entire() && header.length != 4)
                || old(self).consumed + header.length > DEVICE_PATH_MAX_BYTES {
                WalkStep::Malformed
            } else if header.spec_is_end_entire() {
                WalkStep::End((old(self).consumed + 4) as usize)
            } else {
                WalkStep::Continue
            },
            final(self).consumed == old(self).consumed + if step == WalkStep::Malformed {
                0
            } else {
                header.length as int
            },
    {
        let length: usize = header.length as usize;
        if length < NODE_HDR_BYTES {
            return WalkStep::Malformed;
        }
        let end_entire = header.is_end_entire();
        if end_entire && length != NODE_HDR_BYTES {
            return WalkStep::Malformed;
        }
        let total: usize = self.consumed + length;
        if total > DEVICE_PATH_MAX_BYTES {
            return WalkStep::Malformed;
        }
        self.consumed = total;
        if end_entire {
            WalkStep::End(total)
        } else {
            WalkStep::Continue
        }
    }
}

// ---------------------------------------------------------------------------
// Nodes
// ---------------------------------------------------------------------------

/// A node: its type, its sub-type and the bytes after the header.
pub struct NodeView {
    pub node_type: u8,
    pub sub_type: u8,
    pub data: Seq<u8>,
}

/// `bytes` holds a whole node at `offset`.
pub open spec fn has_node(bytes: Seq<u8>, offset: int) -> bool {
    &&& 0 <= offset
    &&& offset + 4 <= bytes.len()
    &&& 4 <= header_at(bytes, offset).length
    &&& offset + header_at(bytes, offset).length <= bytes.len()
}

/// The node at `offset`.
pub open spec fn node_at(bytes: Seq<u8>, offset: int) -> NodeView {
    let header = header_at(bytes, offset);
    NodeView {
        node_type: header.node_type,
        sub_type: header.sub_type,
        data: bytes.subrange(offset + 4, offset + header.length),
    }
}

/// The nodes from `offset` on, up to the end of the bytes or the first that is not
/// whole.
pub open spec fn nodes_from(bytes: Seq<u8>, offset: int) -> Seq<NodeView>
    decreases bytes.len() - offset,
{
    if has_node(bytes, offset) {
        seq![node_at(bytes, offset)] + nodes_from(
            bytes,
            offset + header_at(bytes, offset).length,
        )
    } else {
        seq![]
    }
}

/// All nodes of a device path.
pub open spec fn nodes(bytes: Seq<u8>) -> Seq<NodeView> {
    nodes_from(bytes, 0)
}

/// A node that was read from a device path.
#[derive(Debug)]
pub struct DevicePathNode {
    pub node_type: u8,
    pub sub_type: u8,
    pub data: Vec<u8>,
}

impl View for DevicePathNode {
    type V = NodeView;

    open spec fn view(&self) -> NodeView {
        NodeView { node_type: self.node_type, sub_type: self.sub_type, data: self.data@ }
    }
}

/// The views of a list of nodes.
pub open spec fn node_views(list: Seq<DevicePathNode>) -> Seq<NodeView> {
    Seq::new(list.len(), |i: int| list[i]@)
}

/// A copy of the bytes of `slice`.
pub(crate) fn to_vec(slice: &[u8]) -> (copy: Vec<u8>)
    ensures
        copy@ == slice@,
{
    let mut copy: Vec<u8> = Vec::new();
    copy.extend_from_slice(slice);
    copy
}

/// An owned device path.
#[derive(Debug)]
pub struct DevicePathBuf {
    bytes: Vec<u8>,
}

impl View for DevicePathBuf {
    type V = Seq<u8>;

    closed spec fn view(&self) -> Seq<u8> {
        self.bytes@
    }
}

impl Clone for DevicePathBuf {
    fn clone(&self) -> (copy: Self)
        ensures
            copy@ == self@,
    {
        DevicePathBuf { bytes: to_vec(self.bytes.as_slice()) }
    }
}

/// The contents of a list of device paths.
pub open spec fn path_views(list: Seq<DevicePathBuf>) -> Seq<Seq<u8>> {
    Seq::new(list.len(), |i: int| list[i]@)
}

impl DevicePathBuf {
    /// The device path that `bytes` hold.
    pub fn from_bytes(bytes: Vec<u8>) -> (path: Self)
        ensures
            path@ == bytes@,
    {
        DevicePathBuf { bytes }
    }

    /// The raw bytes of the device path.
    pub fn as_bytes(&self) -> (bytes: &[u8])
        ensures
            bytes@ == self@,
    {
        self.bytes.as_slice()
    }

    /// The nodes of the device path, in order.
    pub fn nodes(&self) -> (list: Vec<DevicePathNode>)
        ensures
            node_views(list@) == nodes(self@),
    {
        let bytes = self.as_bytes();
        let mut list: Vec<DevicePathNode> = Vec::new();
        let mut offset: usize = 0;
        loop
            invariant
                bytes@ == self@,
                offset <= bytes@.len(),
                node_views(list@) + nodes_from(bytes@, offset as int) == nodes(bytes@),
            decreases bytes@.len() - offset,
        {
            let header = read_header(bytes, offset);
            let whole = match header {
                Some(h) => h.length as usize >= NODE_HDR_BYTES && h.length as usize <= bytes.len()
                    - offset,
                None => false,
            };
            if !whole {
                return list;
            }
            let h = header.unwrap();
            let end: usize = offset + h.length as usize;
            list.push(
                DevicePathNode {
                    node_type: h.node_type,
                    sub_type: h.sub_type,
                    data: to_vec(&bytes[offset + NODE_HDR_BYTES..end]),
                },
            );
            offset = end;
        }
    }
}

/// A USB messaging node (Usb, UsbClass or UsbWwid sub-type).
pub open spec fn is_usb_node(node: NodeView) -> bool {
    node.node_type == TYPE_MESSAGING && (node.sub_type == SUBTYPE_USB || node.sub_type
        == SUBTYPE_USB_CLASS || node.sub_type == SUBTYPE_USB_WWID)
}

/// A firmware-volume node: a reference to a firmware file or volume.
pub open spec fn is_fw_file_node(node: NodeView) -> bool {
    node.node_type == TYPE_MEDIA && (node.sub_type == SUBTYPE_PIWG_FIRMWARE_FILE || node.sub_type
        == SUBTYPE_PIWG_FIRMWARE_VOLUME)
}

/// Some node of the path is a USB node.
pub open spec fn has_usb_node(bytes: Seq<u8>) -> bool {
    exists|i: int| 0 <= i < nodes(bytes).len() && is_usb_node(#[trigger] nodes(bytes)[i])
}

/// Some node of the path is a firmware-volume node.
pub open spec fn has_fw_file_node(bytes: Seq<u8>) -> bool {
    exists|i: int| 0 <= i < nodes(bytes).len() && is_fw_file_node(#[trigger] nodes(bytes)[i])
}

/// True if any node in `path` is a USB messaging node (Usb, UsbClass, or UsbWwid
/// sub-types).
pub fn device_path_has_usb_node(path: &DevicePathBuf) -> (result: bool)
    ensures
        result == has_usb_node(path@),
{
    let list = path.nodes();
    for i in 0..list.len()
        invariant
            node_views(list@) == nodes(path@),
            forall|j: int| 0 <= j < i ==> !is_usb_node(#[trigger] nodes(path@)[j]),
    {
        let node = &list[i];
        assert(node@ == nodes(path@)[i as int]);
        if node.node_type == TYPE_MESSAGING && (node.sub_type == SUBTYPE_USB || node.sub_type
            == SUBTYPE_USB_CLASS || node.sub_type == SUBTYPE_USB_WWID) {
            return true;
        }
    }
    false
}

/// True if any node in `path` is a firmware-volume file or volume reference. Used to
/// filter boot entries that point at platform-specific boot dispatchers when recovery
/// from the boot partition is the desired path.
pub fn device_path_has_fw_file_node(path: &DevicePathBuf) -> (result: bool)
    ensures
        result == has_fw_file_node(path@),
{
    let list = path.nodes();
    for i in 0..list.len()
        invariant
            node_views(list@) == nodes(path@),
            forall|j: int| 0 <= j < i ==> !is_fw_file_node(#[trigger] nodes(path@)[j]),
    {
        let node = &list[i];
        assert(node@ == nodes(path@)[i as int]);
        if node.node_type == TYPE_MEDIA && (node.sub_type == SUBTYPE_PIWG_FIRMWARE_FILE
            || node.sub_type == SUBTYPE_PIWG_FIRMWARE_VOLUME) {
            return true;
        }
    }
    false
}

// ---------------------------------------------------------------------------
// Hard drive partitions
// ---------------------------------------------------------------------------

/// What identifies a partition, wherever the drive that holds it is attached.
pub struct PartitionIdentity {
    pub partition_number: int,
    pub partition_format: u8,
    pub signature_type: u8,
    pub partition_signature: Seq<u8>,
}

/// The partition that a hard-drive node names, if `node` is one and holds all fields.
pub open spec fn partition_of(node: NodeView) -> Option<PartitionIdentity> {
    if node.node_type == TYPE_MEDIA && node.sub_type == SUBTYPE_HARD_DRIVE && node.data.len()
        >= HARD_DRIVE_DATA_BYTES {
        Some(
            PartitionIdentity {
                partition_number: le::at32(node.data, 0),
                partition_format: node.data[36],
                signature_type: node.data[37],
                partition_signature: node.data.subrange(20, 36),
            },
        )
    } else {
        None
    }
}

/// The device path names the partition in one of its nodes.
pub open spec fn names_partition(bytes: Seq<u8>, partition: PartitionIdentity) -> bool {
    exists|i: int|
        0 <= i < nodes(bytes).len() && partition_of(#[trigger] nodes(bytes)[i]) == Some(partition)
}

/// A partition on a hard drive or similar storage device, by the fields that identify
/// it.
#[derive(Debug)]
pub struct HardDrive {
    pub partition_number: u32,
    pub partition_format: u8,
    pub signature_type: u8,
    pub partition_signature: Vec<u8>,
}

impl View for HardDrive {
    type V = PartitionIdentity;

    open spec fn view(&self) -> PartitionIdentity {
        PartitionIdentity {
            partition_number: self.partition_number as int,
            partition_format: self.partition_format,
            signature_type: self.signature_type,
            partition_signature: self.partition_signature@,
        }
    }
}

impl HardDrive {
    /// Read a partition from a device path node. `None` if the node is no hard-drive
    /// node or holds fewer bytes than its fields take.
    pub fn try_from_node(node: &DevicePathNode) -> (drive: Option<HardDrive>)
        ensures
            match drive {
                Some(d) => partition_of(node@) == Some(d@),
                None => partition_of(node@) is None,
            },
    {
        if node.node_type != TYPE_MEDIA || node.sub_type != SUBTYPE_HARD_DRIVE || node.data.len()
            < HARD_DRIVE_DATA_BYTES {
            return None;
        }
        let data = node.data.as_slice();
        match le::read_u32(data, 0) {
            Some(partition_number) => Some(
                HardDrive {
                    partition_number,
                    partition_format: data[36],
                    signature_type: data[37],
                    partition_signature: to_vec(&data[20..36]),
                },
            ),
            None => None,
        }
    }
}

/// The partitions that the hard-drive nodes of a list name, in order.
pub open spec fn partitions_of(list: Seq<NodeView>) -> Seq<PartitionIdentity>
    decreases list.len(),
{
    if list.len() == 0 {
        seq![]
    } else {
        let rest = partitions_of(list.drop_last());
        match partition_of(list.last()) {
            Some(partition) => rest.push(partition),
            None => rest,
        }
    }
}

/// The partitions of a node list are exactly those that one of its nodes names.
pub proof fn lemma_partitions_of(list: Seq<NodeView>, partition: PartitionIdentity)
    ensures
        partitions_of(list).contains(partition) <==> exists|i: int|
            0 <= i < list.len() && partition_of(#[trigger] list[i]) == Some(partition),
    decreases list.len(),
{
    if list.len() > 0 {
        let front = list.drop_last();
        lemma_partitions_of(front, partition);
        let rest = partitions_of(front);
        if exists|i: int| 0 <= i < list.len() && partition_of(#[trigger] list[i]) == Some(partition) {
            let i = choose|i: int|
                0 <= i < list.len() && partition_of(#[trigger] list[i]) == Some(partition);
            if i < front.len() {
                assert(front[i] == list[i]);
                let k = rest.index_of(partition);
                assert(partitions_of(list)[k] == partition);
            } else {
                assert(partitions_of(list)[rest.len() as int] == partition);
            }
        }
    }
}

/// The partitions of a list of hard-drive nodes.
pub open spec fn drive_views(list: Seq<HardDrive>) -> Seq<PartitionIdentity> {
    Seq::new(list.len(), |i: int| list[i]@)
}

/// The hard-drive partitions that `path` names, in order.
pub fn hard_drive_nodes(path: &DevicePathBuf) -> (drives: Vec<HardDrive>)
    ensures
        drive_views(drives@) == partitions_of(nodes(path@)),
{
    let list = path.nodes();
    let mut drives: Vec<HardDrive> = Vec::new();
    for i in 0..list.len()
        invariant
            node_views(list@) == nodes(path@),
            drive_views(drives@) == partitions_of(nodes(path@).take(i as int)),
    {
        let node = &list[i];
        if let Some(drive) = HardDrive::try_from_node(node) {
            drives.push(drive);
        }
        assert(nodes(path@).take(i + 1).drop_last() =~= nodes(path@).take(i as int));
    }
    assert(nodes(path@).take(list@.len() as int) =~= nodes(path@));
    drives
}

/// True if two nodes name the same partition.
pub fn hard_drive_identity_matches(left: &HardDrive, right: &HardDrive) -> (result: bool)
    ensures
        result == (left@ == right@),
{
    left.partition_number == right.partition_number && left.partition_format
        == right.partition_format && left.signature_type == right.signature_type && bytes_equal(
        left.partition_signature.as_slice(),
        right.partition_signature.as_slice(),
    )
}

/// True if two byte slices hold the same bytes.
pub(crate) fn bytes_equal(left: &[u8], right: &[u8]) -> (result: bool)
    ensures
        result == (left@ == right@),
{
    if left.len() != right.len() {
        return false;
    }
    for i in 0..left.len()
        invariant
            left@.len() == right@.len(),
            forall|j: int| 0 <= j < i ==> left@[j] == right@[j],
    {
        if left[i] != right[i] {
            return false;
        }
    }
    assert(left@ =~= right@);
    true
}

// ---------------------------------------------------------------------------
// Built paths
// ---------------------------------------------------------------------------

/// The UTF-16 code units of one character.
pub open spec fn utf16_units(c: char) -> Seq<u16> {
    let code = c as int;
    if code < 0x1_0000 {
        seq![code as u16]
    } else {
        seq![
            (0xd800 + (code - 0x1_0000) / 0x400) as u16,
            (0xdc00 + (code - 0x1_0000) % 0x400) as u16,
        ]
    }
}

/// The UTF-16 encoding of a text.
pub open spec fn utf16(text: Seq<char>) -> Seq<u16>
    decreases text.len(),
{
    if text.len() == 0 {
        seq![]
    } else {
        utf16(text.drop_last()) + utf16_units(text.last())
    }
}

/// Code units as little-endian bytes.
pub open spec fn unit_bytes(units: Seq<u16>) -> Seq<u8> {
    Seq::new(2 * units.len(), |i: int| le::bytes16(units[i / 2])[i % 2])
}

/// The byte size of a file-path node for `path`: header, text and its terminator.
pub open spec fn file_path_node_len(path: Seq<char>) -> nat {
    4 + 2 * (utf16(path).len() + 1)
}

/// A file-path node for `path` and an *end entire* node, or the latter alone where the
/// node's size does not fit its 16-bit length.
pub open spec fn file_path_node(path: Seq<char>) -> Seq<u8> {
    let length = file_path_node_len(path);
    if length > u16::MAX {
        end_entire()
    } else {
        header_bytes(TYPE_MEDIA, SUBTYPE_FILE_PATH, length as u16) + unit_bytes(
            utf16(path).push(0),
        ) + end_entire()
    }
}

/// Append the UTF-16 code units of `c`.
fn push_utf16(units: &mut Vec<u16>, c: char)
    ensures
        final(units)@ == old(units)@ + utf16_units(c),
{
    let code: u32 = c as u32;
    if code < 0x1_0000 {
        units.push(code as u16);
    } else {
        units.push((0xd800 + (code - 0x1_0000) / 0x400) as u16);
        units.push((0xdc00 + (code - 0x1_0000) % 0x400) as u16);
    }
}

/// The UTF-16 encoding of `text`.
pub fn encode_utf16(text: &str) -> (units: Vec<u16>)
    ensures
        units@ == utf16(text@),
{
    let mut units: Vec<u16> = Vec::new();
    for c in it: text.chars()
        invariant
            it.seq() == text@,
            units@ == utf16(text@.take(it.index() as int)),
    {
        push_utf16(&mut units, c);
        assert(text@.take(it.index() + 1).drop_last() =~= text@.take(it.index() as int));
    }
    assert(text@.take(text@.len() as int) =~= text@);
    units
}

/// Build a file-path node followed by an *end entire* node. Returns the raw bytes; the
/// caller prepends those of the parent path when constructing a full path.
///
/// A path too long for the node's 16-bit length gives the *end entire* node alone, which
/// parses cleanly and makes loading the image fail as not found.
pub fn build_file_path_node(path: &str) -> (bytes: Vec<u8>)
    ensures
        bytes@ == file_path_node(path@),
{
    let mut units = encode_utf16(path);
    units.push(0);
    let end = encode_node_header(
        Header { node_type: TYPE_END, sub_type: SUBTYPE_END_ENTIRE, length: 4 },
    );
    if units.len() > (0xffff - NODE_HDR_BYTES) / 2 {
        return end;
    }
    let node_len: usize = NODE_HDR_BYTES + 2 * units.len();
    let mut out = encode_node_header(
        Header { node_type: TYPE_MEDIA, sub_type: SUBTYPE_FILE_PATH, length: node_len as u16 },
    );
    let ghost head = out@;
    for i in 0..units.len()
        invariant
            out@ == head + unit_bytes(units@.take(i as int)),
    {
        let unit: u16 = units[i];
        out.push((unit % 0x100) as u8);
        out.push((unit / 0x100) as u8);
    }
    let mut end = end;
    out.append(&mut end);
    out
}

/// The default bootloader of removable media on 64-bit x86.
pub const BOOT_FILE_PATH_X64: &'static str = "\\EFI\\Boot\\bootx64.efi";

/// The default bootloader of removable media on 64-bit Arm.
pub const BOOT_FILE_PATH_AARCH64: &'static str = "\\EFI\\Boot\\bootaa64.efi";

/// The removable-media default bootloader path: that of 64-bit Arm there, else that of
/// 64-bit x86.
pub fn default_boot_file_path(aarch64: bool) -> (path: &'static str)
    ensures
        path@ == spec_default_boot_file_path(aarch64),
{
    if aarch64 {
        BOOT_FILE_PATH_AARCH64
    } else {
        BOOT_FILE_PATH_X64
    }
}

/// The default bootloader path of the architecture.
pub open spec fn spec_default_boot_file_path(aarch64: bool) -> Seq<char> {
    if aarch64 {
        BOOT_FILE_PATH_AARCH64@
    } else {
        BOOT_FILE_PATH_X64@
    }
}

/// The path `base` without its *end entire* node, for a path that
/// [`device_path_size`] accepts.
pub open spec fn payload(base: Seq<u8>) -> Seq<u8> {
    base.take(spec_device_path_size(base) - 4)
}

/// The path to `file` on the volume at `base`.
pub open spec fn file_on_volume(base: Seq<u8>, file: Seq<char>) -> Seq<u8> {
    payload(base) + file_path_node(file)
}

/// Append a file to the path of the volume that holds it: the nodes of `base`, a
/// file-path node and an *end entire* node.
pub fn append_file_path(base: &DevicePathBuf, file: &str) -> (path: DevicePathBuf)
    requires
        spec_device_path_size(base@) >= 4,
    ensures
        path@ == file_on_volume(base@, file@),
{
    let size: usize = device_path_size(base.as_bytes());
    let mut bytes = to_vec(&base.as_bytes()[0..size - NODE_HDR_BYTES]);
    let mut node = build_file_path_node(file);
    bytes.append(&mut node);
    DevicePathBuf::from_bytes(bytes)
}

/// The path that boots the volume at `base` if it is a USB volume with a path that
/// [`device_path_size`] accepts.
pub open spec fn usb_boot_path(base: Seq<u8>, file: Seq<char>) -> Option<Seq<u8>> {
    let size = spec_device_path_size(base);
    if size >= 4 && has_usb_node(base.take(size)) {
        Some(file_on_volume(base, file))
    } else {
        None
    }
}

/// The boot path of the first USB volume in a list of volumes, of which some have no
/// device path.
pub open spec fn first_usb_boot_path(
    volumes: Seq<Option<DevicePathBuf>>,
    file: Seq<char>,
) -> Option<Seq<u8>>
    decreases volumes.len(),
{
    if volumes.len() == 0 {
        None
    } else {
        let first = match volumes[0] {
            Some(base) => usb_boot_path(base@, file),
            None => None,
        };
        if first is Some {
            first
        } else {
            first_usb_boot_path(volumes.drop_first(), file)
        }
    }
}

/// The boot path of the first USB volume among the file-system volumes of the machine.
///
/// `volumes` holds the device path of each file-system handle, `None` where a handle has
/// none. The default bootloader is appended because loading an image from a bare volume
/// path does not resolve it.
pub fn find_first_usb_sfs_device_path(
    volumes: &Vec<Option<DevicePathBuf>>,
    file: &str,
) -> (path: Option<DevicePathBuf>)
    ensures
        match path {
            Some(p) => first_usb_boot_path(volumes@, file@) == Some(p@),
            None => first_usb_boot_path(volumes@, file@) is None,
        },
{
    assert(volumes@.skip(0) =~= volumes@);
    for i in 0..volumes.len()
        invariant
            first_usb_boot_path(volumes@, file@) == first_usb_boot_path(
                volumes@.skip(i as int),
                file@,
            ),
    {
        assert(volumes@.skip(i as int).drop_first() =~= volumes@.skip(i + 1));
        if let Some(base) = &volumes[i] {
            let size: usize = device_path_size(base.as_bytes());
            if size >= NODE_HDR_BYTES {
                let whole = DevicePathBuf::from_bytes(to_vec(&base.as_bytes()[0..size]));
                if device_path_has_usb_node(&whole) {
                    return Some(append_file_path(base, file));
                }
            }
        }
    }
    None
}

/// A firmware-volume node that names `guid`.
pub open spec fn fw_node(sub_type: u8, guid: Guid) -> Seq<u8> {
    header_bytes(TYPE_MEDIA, sub_type, 20) + guid.spec_bytes()
}

/// Append a firmware-volume node that names `guid`.
fn push_fw_node(bytes: &mut Vec<u8>, sub_type: u8, guid: Guid)
    ensures
        final(bytes)@ == old(bytes)@ + fw_node(sub_type, guid),
{
    let mut header = encode_node_header(
        Header { node_type: TYPE_MEDIA, sub_type, length: 20 },
    );
    let name = guid.as_bytes();
    let mut name = to_vec(name.as_slice());
    bytes.append(&mut header);
    bytes.append(&mut name);
}

/// Append an *end entire* node.
fn push_end_entire(bytes: &mut Vec<u8>)
    ensures
        final(bytes)@ == old(bytes)@ + end_entire(),
{
    let mut end = encode_node_header(
        Header { node_type: TYPE_END, sub_type: SUBTYPE_END_ENTIRE, length: 4 },
    );
    bytes.append(&mut end);
}

/// Construct a partial device path: the firmware file `file_guid`, then the end.
///
/// Suitable for image loaders that search all installed firmware volumes for the file;
/// others need the volume too, see [`fv_volume_file_device_path`].
pub fn fv_file_device_path(file_guid: Guid) -> (path: DevicePathBuf)
    ensures
        path@ == fw_node(SUBTYPE_PIWG_FIRMWARE_FILE, file_guid) + end_entire(),
{
    let mut bytes: Vec<u8> = Vec::new();
    push_fw_node(&mut bytes, SUBTYPE_PIWG_FIRMWARE_FILE, file_guid);
    push_end_entire(&mut bytes);
    DevicePathBuf::from_bytes(bytes)
}

/// Construct a full device path: the firmware volume `fv_guid`, the file `file_guid` in
/// it, then the end.
pub fn fv_volume_file_device_path(fv_guid: Guid, file_guid: Guid) -> (path: DevicePathBuf)
    ensures
        path@ == fw_node(SUBTYPE_PIWG_FIRMWARE_VOLUME, fv_guid) + fw_node(
            SUBTYPE_PIWG_FIRMWARE_FILE,
            file_guid,
        ) + end_entire(),
{
    let mut bytes: Vec<u8> = Vec::new();
    push_fw_node(&mut bytes, SUBTYPE_PIWG_FIRMWARE_VOLUME, fv_guid);
    push_fw_node(&mut bytes, SUBTYPE_PIWG_FIRMWARE_FILE, file_guid);
    push_end_entire(&mut bytes);
    DevicePathBuf::from_bytes(bytes)
}

// ---------------------------------------------------------------------------
// Laws
// ---------------------------------------------------------------------------

/// A walk that starts within `tail` does not see what stands before it.
proof fn lemma_walk_end_shift(prefix: Seq<u8>, tail: Seq<u8>, offset: int)
    requires
        0 <= offset,
    ensures
        walk_end(prefix + tail, prefix.len() + offset) == match walk_end(tail, offset) {
            Some(end) => Some(prefix.len() + end),
            None => None,
        },
    decreases tail.len() - offset,
{
    if offset + 4 <= tail.len() {
        let header = header_at(tail, offset);
        if header.length >= 4 && offset + header.length <= tail.len() {
            lemma_walk_end_shift(prefix, tail, offset + header.length);
        }
    }
}

/// Replacing the *end entire* node of a path by `tail` continues the walk in `tail`.
proof fn lemma_walk_end_replace(bytes: Seq<u8>, offset: int, tail: Seq<u8>)
    requires
        0 <= offset,
        walk_end(bytes, offset) is Some,
    ensures
        ({
            let cut = walk_end(bytes, offset)->0 - 4;
            walk_end(bytes.take(cut) + tail, offset) == match walk_end(tail, 0) {
                Some(end) => Some(cut + end),
                None => None,
            }
        }),
    decreases bytes.len() - offset,
{
    lemma_walk_end_bounds(bytes, offset);
    let cut = walk_end(bytes, offset)->0 - 4;
    let header = header_at(bytes, offset);
    if header.spec_is_end_entire() {
        lemma_walk_end_shift(bytes.take(cut), tail, 0);
    } else {
        let next = offset + header.length;
        lemma_walk_end_bounds(bytes, next);
        lemma_walk_end_replace(bytes, next, tail);
    }
}

/// A node before a path that the walk accepts gives a path that the walk accepts.
proof fn lemma_node_before_path(node: Seq<u8>, rest: Seq<u8>)
    requires
        node.len() >= 4,
        header_at(node, 0).length == node.len(),
        !header_at(node, 0).spec_is_end_entire(),
        well_formed(rest),
    ensures
        well_formed(node + rest),
{
    lemma_walk_end_shift(node, rest, 0);
}

/// A bare *end entire* node is a device path.
pub proof fn law_end_entire_well_formed()
    ensures
        well_formed(end_entire()),
{
}

/// What [`build_file_path_node`] builds is a device path, for every text.
pub proof fn law_file_path_node_well_formed(path: Seq<char>)
    ensures
        well_formed(file_path_node(path)),
{
    law_end_entire_well_formed();
    let length = file_path_node_len(path);
    if length <= u16::MAX {
        let node = header_bytes(TYPE_MEDIA, SUBTYPE_FILE_PATH, length as u16) + unit_bytes(
            utf16(path).push(0),
        );
        le::lemma_16_round_trip(length as u16);
        lemma_node_before_path(node, end_entire());
    }
}

/// What [`build_file_path_node`] builds reads back as one file-path node that holds the text
/// and its terminator, and the end, wherever the node's size fits its length.
pub proof fn law_file_path_node_reads_back(path: Seq<char>)
    requires
        file_path_node_len(path) <= u16::MAX,
    ensures
        nodes(file_path_node(path)) == seq![
            NodeView {
                node_type: TYPE_MEDIA,
                sub_type: SUBTYPE_FILE_PATH,
                data: unit_bytes(utf16(path).push(0)),
            },
            NodeView { node_type: TYPE_END, sub_type: SUBTYPE_END_ENTIRE, data: seq![] },
        ],
{
    let length = file_path_node_len(path);
    let units = unit_bytes(utf16(path).push(0));
    let bytes = file_path_node(path);
    le::lemma_16_round_trip(length as u16);
    assert(bytes.subrange(4, length as int) =~= units);
    let end = length + 4;
    assert(bytes.subrange(end as int, end as int) =~= seq![]);
    reveal_with_fuel(nodes_from, 3);
}

/// A firmware-volume node is a whole node that does not end the path.
proof fn lemma_fw_node(sub_type: u8, guid: Guid)
    ensures
        fw_node(sub_type, guid).len() == 20,
        header_at(fw_node(sub_type, guid), 0) == (Header {
            node_type: TYPE_MEDIA,
            sub_type,
            length: 20,
        }),
{
    le::lemma_32_round_trip(guid.time_low);
    le::lemma_16_round_trip(guid.time_mid);
    le::lemma_16_round_trip(guid.time_hi_and_version);
    le::lemma_16_round_trip(20);
}

/// Both firmware-file paths are device paths, of 24 and 44 bytes, and both count as
/// firmware-file paths when boot entries are filtered.
pub proof fn law_fv_paths_well_formed(fv_guid: Guid, file_guid: Guid)
    ensures
        ({
            let file = fw_node(SUBTYPE_PIWG_FIRMWARE_FILE, file_guid) + end_entire();
            let full = fw_node(SUBTYPE_PIWG_FIRMWARE_VOLUME, fv_guid) + fw_node(
                SUBTYPE_PIWG_FIRMWARE_FILE,
                file_guid,
            ) + end_entire();
            &&& well_formed(file)
            &&& file.len() == 24
            &&& has_fw_file_node(file)
            &&& well_formed(full)
            &&& full.len() == 44
            &&& has_fw_file_node(full)
        }),
{
    lemma_fw_node(SUBTYPE_PIWG_FIRMWARE_VOLUME, fv_guid);
    lemma_fw_node(SUBTYPE_PIWG_FIRMWARE_FILE, file_guid);
    law_end_entire_well_formed();
    let vol_node = fw_node(SUBTYPE_PIWG_FIRMWARE_VOLUME, fv_guid);
    let file_node = fw_node(SUBTYPE_PIWG_FIRMWARE_FILE, file_guid);
    let file = file_node + end_entire();
    let full = vol_node + file_node + end_entire();
    lemma_node_before_path(file_node, end_entire());
    lemma_node_before_path(vol_node, file);
    assert(full =~= vol_node + file);
    assert(is_fw_file_node(nodes(file)[0]));
    assert(is_fw_file_node(nodes(full)[0]));
}

/// Appending a file to the path of a volume gives a device path that starts with the
/// volume's nodes, for every volume whose path [`device_path_size`] accepts.
pub proof fn law_file_on_volume_well_formed(base: Seq<u8>, file: Seq<char>)
    requires
        spec_device_path_size(base) >= 4,
    ensures
        well_formed(file_on_volume(base, file)),
        payload(base).is_prefix_of(file_on_volume(base, file)),
{
    lemma_walk_end_bounds(base, 0);
    law_file_path_node_well_formed(file);
    lemma_walk_end_replace(base, 0, file_path_node(file));
}

/// The nodes from an offset on are those of the bytes from there on.
proof fn lemma_nodes_from_skip(bytes: Seq<u8>, offset: int, more: int)
    requires
        0 <= offset <= bytes.len(),
        0 <= more,
    ensures
        nodes_from(bytes.skip(offset), more) == nodes_from(bytes, offset + more),
    decreases bytes.len() - offset - more,
{
    let rest = bytes.skip(offset);
    if has_node(bytes, offset + more) {
        let length = header_at(bytes, offset + more).length;
        assert(rest.subrange(more + 4, more + length) =~= bytes.subrange(
            offset + more + 4,
            offset + more + length,
        ));
        lemma_nodes_from_skip(bytes, offset, more + length);
    }
}

/// The nodes of a path are those that stand in it, each once and in order: a whole node in
/// front of any bytes comes first, with its type, its sub-type and what follows its header,
/// and leaves the nodes of the rest as they are.
pub proof fn law_node_in_front_comes_first(node: Seq<u8>, rest: Seq<u8>)
    requires
        node.len() >= 4,
        node[2] + 256 * node[3] == node.len(),
    ensures
        nodes(node + rest) == seq![
            NodeView { node_type: node[0], sub_type: node[1], data: node.skip(4) },
        ] + nodes(rest),
{
    let bytes = node + rest;
    let length = node.len() as int;
    assert(bytes.skip(length) =~= rest);
    assert(bytes.subrange(4, length) =~= node.skip(4));
    lemma_nodes_from_skip(bytes, length, 0);
}

/// Bytes that do not start with a whole node hold none: fewer than a header, or a length
/// that is below the header's or beyond the end.
pub proof fn law_no_node_without_its_bytes(bytes: Seq<u8>)
    requires
        bytes.len() < 4 || bytes[2] + 256 * bytes[3] < 4 || bytes[2] + 256 * bytes[3]
            > bytes.len(),
    ensures
        nodes(bytes).len() == 0,
{
}

/// A USB node counts wherever it stands in a path: a node in front makes the path count if it
/// is a messaging node of a USB sub-type, and changes nothing else.
pub proof fn law_usb_node_counts_anywhere(node: Seq<u8>, rest: Seq<u8>)
    requires
        node.len() >= 4,
        node[2] + 256 * node[3] == node.len(),
    ensures
        has_usb_node(node + rest) <==> (node[0] == 3 && (node[1] == 5 || node[1] == 15 || node[1]
            == 16)) || has_usb_node(rest),
{
    law_node_in_front_comes_first(node, rest);
    let all = nodes(node + rest);
    if has_usb_node(rest) {
        let i = choose|i: int| 0 <= i < nodes(rest).len() && is_usb_node(#[trigger] nodes(rest)[i]);
        assert(all[i + 1] == nodes(rest)[i]);
    }
    if has_usb_node(node + rest) {
        let i = choose|i: int| 0 <= i < all.len() && is_usb_node(#[trigger] all[i]);
        if i > 0 {
            assert(all[i] == nodes(rest)[i - 1]);
        }
    }
    assert(all[0].node_type == node[0]);
}

/// A firmware-volume node counts wherever it stands in a path, as a USB node does.
pub proof fn law_fw_file_node_counts_anywhere(node: Seq<u8>, rest: Seq<u8>)
    requires
        node.len() >= 4,
        node[2] + 256 * node[3] == node.len(),
    ensures
        has_fw_file_node(node + rest) <==> (node[0] == 4 && (node[1] == 6 || node[1] == 7))
            || has_fw_file_node(rest),
{
    law_node_in_front_comes_first(node, rest);
    let all = nodes(node + rest);
    if has_fw_file_node(rest) {
        let i = choose|i: int|
            0 <= i < nodes(rest).len() && is_fw_file_node(#[trigger] nodes(rest)[i]);
        assert(all[i + 1] == nodes(rest)[i]);
    }
    if has_fw_file_node(node + rest) {
        let i = choose|i: int| 0 <= i < all.len() && is_fw_file_node(#[trigger] all[i]);
        if i > 0 {
            assert(all[i] == nodes(rest)[i - 1]);
        }
    }
    assert(all[0].node_type == node[0]);
}

/// A partition is named wherever its node stands in a path: a node in front adds the
/// partition that it names if it is a hard-drive node with all its fields, and changes
/// nothing else. Number, signature, format and signature type are what identifies it; where
/// it starts and how large it is are not.
pub proof fn law_partition_is_named_anywhere(
    node: Seq<u8>,
    rest: Seq<u8>,
    partition: PartitionIdentity,
)
    requires
        node.len() >= 4,
        node[2] + 256 * node[3] == node.len(),
    ensures
        names_partition(node + rest, partition) <==> {
            ||| node[0] == 4 && node[1] == 1 && node.len() >= 42 && partition.partition_number
                == node[4] + 256 * (node[5] + 256 * (node[6] + 256 * node[7]))
                && partition.partition_signature == node.subrange(24, 40)
                && partition.partition_format == node[40] && partition.signature_type == node[41]
            ||| names_partition(rest, partition)
        },
{
    law_node_in_front_comes_first(node, rest);
    let all = nodes(node + rest);
    if node.len() >= 42 {
        assert(node.skip(4).subrange(20, 36) =~= node.subrange(24, 40));
    }
    if names_partition(rest, partition) {
        let i = choose|i: int|
            0 <= i < nodes(rest).len() && partition_of(#[trigger] nodes(rest)[i]) == Some(partition);
        assert(all[i + 1] == nodes(rest)[i]);
    }
    if names_partition(node + rest, partition) {
        let i = choose|i: int|
            0 <= i < all.len() && partition_of(#[trigger] all[i]) == Some(partition);
        if i > 0 {
            assert(all[i] == nodes(rest)[i - 1]);
        }
    }
    assert(all[0].node_type == node[0]);
}

/// A path without a whole node counts as nothing and names nothing.
pub proof fn law_no_node_counts_as_nothing(bytes: Seq<u8>, partition: PartitionIdentity)
    requires
        nodes(bytes).len() == 0,
    ensures
        !has_usb_node(bytes),
        !has_fw_file_node(bytes),
        !names_partition(bytes, partition),
{
}

/// The partitions of a list of nodes come in the order of the nodes, one for each node that
/// names one.
pub proof fn law_partitions_in_order(front: Seq<NodeView>, node: NodeView)
    ensures
        partitions_of(seq![]).len() == 0,
        partition_of(node) is None ==> partitions_of(front.push(node)) == partitions_of(front),
        partition_of(node) matches Some(partition) ==> partitions_of(front.push(node))
            == partitions_of(front).push(partition),
{
    assert(front.push(node).drop_last() =~= front);
}

/// A whole node in front of a path adds its length to the path's size, up to the sanity cap;
/// a path that is malformed stays so. An *end entire* node of four bytes ends the path there,
/// whatever follows.
pub proof fn law_size_adds_up(node: Seq<u8>, rest: Seq<u8>)
    requires
        node.len() >= 4,
        node[2] + 256 * node[3] == node.len(),
    ensures
        !(node[0] == 0x7f && node[1] == 0xff) ==> spec_device_path_size(node + rest) == (if 0
            < spec_device_path_size(rest) <= 65536 - node.len() {
            node.len() + spec_device_path_size(rest)
        } else {
            0
        }),
        node[0] == 0x7f && node[1] == 0xff && node.len() == 4 ==> spec_device_path_size(node + rest)
            == 4,
        node[0] == 0x7f && node[1] == 0xff && node.len() > 4 ==> spec_device_path_size(node + rest)
            == 0,
{
    lemma_walk_end_shift(node, rest, 0);
    lemma_walk_end_bounds(rest, 0);
}

/// Bytes that do not start with a whole node are no path.
pub proof fn law_no_size_without_a_node(bytes: Seq<u8>)
    requires
        bytes.len() < 4 || bytes[2] + 256 * bytes[3] < 4 || bytes[2] + 256 * bytes[3]
            > bytes.len(),
    ensures
        spec_device_path_size(bytes) == 0,
{
}

/// A text is encoded character by character: one below 0x10000 is its own unit, and another
/// becomes two surrogates from which it can be read back.
pub proof fn law_utf16_decodes(front: Seq<char>, c: char)
    ensures
        utf16(seq![]).len() == 0,
        ({
            let before = utf16(front);
            let n = before.len() as int;
            let units = utf16(front.push(c));
            &&& units.take(n) == before
            &&& c as int <= 0xffff ==> units.len() == n + 1 && units[n] == c as int
            &&& c as int > 0xffff ==> {
                let high = units[n];
                let low = units[n + 1];
                &&& units.len() == n + 2
                &&& 0xd800 <= high < 0xdc00
                &&& 0xdc00 <= low < 0xe000
                &&& c as int == 0x1_0000 + (high - 0xd800) * 0x400 + (low - 0xdc00)
            }
        }),
{
    assert(front.push(c).drop_last() =~= front);
    let before = utf16(front);
    assert(utf16(front.push(c)).take(before.len() as int) =~= before);
}

/// The bytes of a file-path node: type and sub-type, its length, the units of the text with
/// the low byte first, a zero unit, and the end of the path. A text that the 16-bit length
/// cannot describe gives the end of the path alone.
pub proof fn law_file_path_node_bytes(path: Seq<char>)
    ensures
        ({
            let bytes = file_path_node(path);
            let units = utf16(path);
            let n = units.len() as int;
            if 2 * n + 6 <= 0xffff {
                &&& bytes.len() == 2 * n + 10
                &&& bytes[0] == 4 && bytes[1] == 4
                &&& bytes[2] + 256 * bytes[3] == 2 * n + 6
                &&& forall|i: int|
                    0 <= i < n ==> bytes[2 * i + 4] + 256 * bytes[2 * i + 5] == #[trigger] units[i]
                &&& bytes[2 * n + 4] == 0 && bytes[2 * n + 5] == 0
                &&& bytes.skip(2 * n + 6) == seq![0x7fu8, 0xff, 4, 0]
            } else {
                bytes == seq![0x7fu8, 0xff, 4, 0]
            }
        }),
{
    let bytes = file_path_node(path);
    let units = utf16(path);
    let n = units.len() as int;
    if 2 * n + 6 <= 0xffff {
        let text = unit_bytes(units.push(0));
        assert forall|i: int| 0 <= i <= n implies bytes[2 * i + 4] + 256 * bytes[2 * i + 5]
            == #[trigger] units.push(0)[i] by {
            assert(bytes[2 * i + 4] == text[2 * i]);
            assert(bytes[2 * i + 5] == text[2 * i + 1]);
        }
        assert(units.push(0)[n] == 0);
        assert forall|i: int| 0 <= i < n implies bytes[2 * i + 4] + 256 * bytes[2 * i + 5]
            == #[trigger] units[i] by {
            assert(units.push(0)[i] == units[i]);
        }
        assert(bytes.skip(2 * n + 6) =~= seq![0x7fu8, 0xff, 4, 0]);
    }
}

/// The path of a file on a volume is the volume's path up to its *end entire* node, followed
/// by the file-path node.
pub proof fn law_file_follows_the_volume(base: Seq<u8>, file: Seq<char>)
    requires
        spec_device_path_size(base) >= 4,
    ensures
        ({
            let path = file_on_volume(base, file);
            let cut = spec_device_path_size(base) - 4;
            &&& path.len() == cut + file_path_node(file).len()
            &&& forall|i: int| 0 <= i < cut ==> #[trigger] path[i] == base[i]
            &&& path.skip(cut) == file_path_node(file)
        }),
{
    lemma_walk_end_bounds(base, 0);
    let cut = spec_device_path_size(base) - 4;
    assert(file_on_volume(base, file).skip(cut) =~= file_path_node(file));
}

/// The first volume that is on USB and has a path that can be extended is booted, whatever
/// stands before and behind it; where there is none, nothing is.
pub proof fn law_first_usb_volume_boots(volumes: Seq<Option<DevicePathBuf>>, file: Seq<char>, i: int)
    requires
        0 <= i <= volumes.len(),
        forall|j: int|
            0 <= j < i && (#[trigger] volumes[j]) is Some ==> spec_device_path_size(volumes[j]->0@)
                < 4 || !has_usb_node(
                volumes[j]->0@.take(spec_device_path_size(volumes[j]->0@)),
            ),
    ensures
        i == volumes.len() ==> first_usb_boot_path(volumes, file) is None,
        i < volumes.len() && volumes[i] is Some ==> {
            let base = volumes[i]->0@;
            let size = spec_device_path_size(base);
            size >= 4 && has_usb_node(base.take(size)) ==> first_usb_boot_path(volumes, file)
                == Some(base.take(size - 4) + file_path_node(file))
        },
    decreases i,
{
    if i > 0 {
        assert(volumes[0] is Some ==> usb_boot_path(volumes[0]->0@, file) is None);
        let rest = volumes.drop_first();
        assert forall|j: int| 0 <= j < i - 1 && (#[trigger] rest[j]) is Some implies
            spec_device_path_size(rest[j]->0@) < 4 || !has_usb_node(
            rest[j]->0@.take(spec_device_path_size(rest[j]->0@)),
        ) by {
            assert(rest[j] == volumes[j + 1]);
        }
        law_first_usb_volume_boots(rest, file, i - 1);
    }
}

/// The bytes of a firmware-file path: a node of twenty bytes for the volume, if it is named,
/// and one for the file, each with the fields of its identifier in UEFI's byte order, and the
/// end of the path.
pub proof fn law_fw_node_bytes(sub_type: u8, guid: Guid)
    ensures
        SUBTYPE_PIWG_FIRMWARE_FILE == 6,
        SUBTYPE_PIWG_FIRMWARE_VOLUME == 7,
        end_entire() == seq![0x7fu8, 0xff, 4, 0],
        ({
            let node = fw_node(sub_type, guid);
            &&& node.len() == 20
            &&& node[0] == 4 && node[1] == sub_type && node[2] == 20 && node[3] == 0
            &&& node[4] + 256 * (node[5] + 256 * (node[6] + 256 * node[7])) == guid.time_low
            &&& node[8] + 256 * node[9] == guid.time_mid
            &&& node[10] + 256 * node[11] == guid.time_hi_and_version
            &&& node[12] == guid.clk_seq_hi_res
            &&& node[13] == guid.clk_seq_low
            &&& node.skip(14) == guid.node@
        }),
{
    lemma_fw_node(sub_type, guid);
    assert(fw_node(sub_type, guid).skip(14) =~= guid.node@);
}

/// The default bootloader of removable media is that of the architecture.
pub proof fn law_default_boot_file()
    ensures
        spec_default_boot_file_path(true) == "\\EFI\\Boot\\bootaa64.efi"@,
        spec_default_boot_file_path(false) == "\\EFI\\Boot\\bootx64.efi"@,
{
}

/// Lists of paths, nodes and drives are seen item by item.
pub proof fn law_lists_are_seen_whole(
    paths: Seq<DevicePathBuf>,
    list: Seq<DevicePathNode>,
    drives: Seq<HardDrive>,
    i: int,
)
    ensures
        path_views(paths).len() == paths.len(),
        node_views(list).len() == list.len(),
        drive_views(drives).len() == drives.len(),
        0 <= i < paths.len() ==> path_views(paths)[i] == paths[i]@,
        0 <= i < list.len() ==> node_views(list)[i] == (NodeView {
            node_type: list[i].node_type,
            sub_type: list[i].sub_type,
            data: list[i].data@,
        }),
        0 <= i < drives.len() ==> drive_views(drives)[i] == (PartitionIdentity {
            partition_number: drives[i].partition_number as int,
            partition_format: drives[i].partition_format,
            signature_type: drives[i].signature_type,
            partition_signature: drives[i].partition_signature@,
        }),
{
}

} // verus!
