//! Projection of one map record into titled blocks of labelled values, and
//! the split of those blocks into two columns.

use vstd::prelude::*;
use vstd::string::*;
use crate::maps::MapInfo;
use crate::record::{map_type_label, type_label, MapRecord};
use crate::text::{
    decimal_string, decimal_text, decode_name, hex_string, hex_text, name_text,
    reference_string, reference_text,
};

verus! {

/// One labelled value of the detail view.
pub struct Field {
    pub label: String,
    pub value: String,
}

/// A titled group of labelled values.
pub struct Block {
    pub title: String,
    pub fields: Vec<Field>,
}

impl View for Field {
    type V = (Seq<char>, Seq<char>);

    open spec fn view(&self) -> (Seq<char>, Seq<char>) {
        (self.label@, self.value@)
    }
}

impl View for Block {
    type V = (Seq<char>, Seq<(Seq<char>, Seq<char>)>);

    open spec fn view(&self) -> (Seq<char>, Seq<(Seq<char>, Seq<char>)>) {
        (self.title@, self.fields@.map_values(|f: Field| f@))
    }
}

/// The views of a sequence of blocks.
pub open spec fn blocks_view(v: Seq<Block>) -> Seq<(Seq<char>, Seq<(Seq<char>, Seq<char>)>)> {
    v.map_values(|b: Block| b@)
}

/// A type code followed by its label in parentheses: `2 (array)`.
pub open spec fn type_text(t: u32) -> Seq<char> {
    decimal_text(t as nat) + " ("@ + type_label(t) + ")"@
}

/// A byte count with its unit: `4 bytes`.
pub open spec fn bytes_text(n: u32) -> Seq<char> {
    decimal_text(n as nat) + " bytes"@
}

/// The identity block: id, name, type and flags.
pub open spec fn identity_block(r: MapRecord) -> (Seq<char>, Seq<(Seq<char>, Seq<char>)>) {
    (
        "Identity"@,
        seq![
            ("ID"@, decimal_text(r.id as nat)),
            ("Name"@, name_text(r.name@)),
            ("Type"@, type_text(r.type_)),
            ("Flags"@, hex_text(r.map_flags as nat)),
        ],
    )
}

/// The sizes block: key and value sizes, capacity and the extra flags.
pub open spec fn sizes_block(r: MapRecord) -> (Seq<char>, Seq<(Seq<char>, Seq<char>)>) {
    (
        "Sizes"@,
        seq![
            ("Key Size"@, bytes_text(r.key_size)),
            ("Value Size"@, bytes_text(r.value_size)),
            ("Max Entries"@, decimal_text(r.max_entries as nat)),
            ("Map Extra"@, hex_text(r.map_extra as nat)),
        ],
    )
}

/// The debug-type block; every reference reads `N/A` when it is zero.
pub open spec fn btf_block(r: MapRecord) -> (Seq<char>, Seq<(Seq<char>, Seq<char>)>) {
    (
        "BTF Info"@,
        seq![
            ("BTF ID"@, reference_text(r.btf_id as nat)),
            ("BTF Key Type ID"@, reference_text(r.btf_key_type_id as nat)),
            ("BTF Value Type ID"@, reference_text(r.btf_value_type_id as nat)),
            ("BTF VMLinux Value Type ID"@, reference_text(r.btf_vmlinux_value_type_id as nat)),
            ("BTF VMLinux ID"@, reference_text(r.btf_vmlinux_id as nat)),
        ],
    )
}

/// The namespace block: interface index, device and inode numbers.
pub open spec fn namespace_block(r: MapRecord) -> (Seq<char>, Seq<(Seq<char>, Seq<char>)>) {
    (
        "Namespace & Device"@,
        seq![
            ("IfIndex"@, decimal_text(r.ifindex as nat)),
            ("Netns Dev"@, hex_text(r.netns_dev as nat)),
            ("Netns Ino"@, hex_text(r.netns_ino as nat)),
        ],
    )
}

/// The blocks of the detail view of a record, in display order.
pub open spec fn detail_view(r: MapRecord) -> Seq<(Seq<char>, Seq<(Seq<char>, Seq<char>)>)> {
    seq![identity_block(r), sizes_block(r), btf_block(r), namespace_block(r)]
}

fn field(label: &str, value: String) -> (f: Field)
    ensures
        f@ == (label@, value@),
{
    Field { label: String::from_str(label), value }
}

fn block(title: &str, fields: Vec<Field>) -> (b: Block)
    ensures
        b.title@ == title@,
        b.fields == fields,
{
    Block { title: String::from_str(title), fields }
}

fn type_string(t: u32) -> (r: String)
    ensures
        r@ == type_text(t),
{
    let mut s = decimal_string(t as u64);
    s.append(" (");
    let label = map_type_label(t);
    s.append(label.as_str());
    s.append(")");
    s
}

fn bytes_string(n: u32) -> (r: String)
    ensures
        r@ == bytes_text(n),
{
    let mut s = decimal_string(n as u64);
    s.append(" bytes");
    s
}

fn identity(r: &MapRecord) -> (b: Block)
    ensures
        b@ == identity_block(*r),
{
    let mut f: Vec<Field> = Vec::new();
    f.push(field("ID", decimal_string(r.id as u64)));
    f.push(field("Name", decode_name(r.name.as_slice())));
    f.push(field("Type", type_string(r.type_)));
    f.push(field("Flags", hex_string(r.map_flags as u64)));
    let b = block("Identity", f);
    proof {
        assert(b@.1 =~= identity_block(*r).1);
    }
    b
}

fn sizes(r: &MapRecord) -> (b: Block)
    ensures
        b@ == sizes_block(*r),
{
    let mut f: Vec<Field> = Vec::new();
    f.push(field("Key Size", bytes_string(r.key_size)));
    f.push(field("Value Size", bytes_string(r.value_size)));
    f.push(field("Max Entries", decimal_string(r.max_entries as u64)));
    f.push(field("Map Extra", hex_string(r.map_extra)));
    let b = block("Sizes", f);
    proof {
        assert(b@.1 =~= sizes_block(*r).1);
    }
    b
}

fn btf(r: &MapRecord) -> (b: Block)
    ensures
        b@ == btf_block(*r),
{
    let mut f: Vec<Field> = Vec::new();
    f.push(field("BTF ID", reference_string(r.btf_id)));
    f.push(field("BTF Key Type ID", reference_string(r.btf_key_type_id)));
    f.push(field("BTF Value Type ID", reference_string(r.btf_value_type_id)));
    f.push(field("BTF VMLinux Value Type ID", reference_string(r.btf_vmlinux_value_type_id)));
    f.push(field("BTF VMLinux ID", reference_string(r.btf_vmlinux_id)));
    let b = block("BTF Info", f);
    proof {
        assert(b@.1 =~= btf_block(*r).1);
    }
    b
}

fn namespace(r: &MapRecord) -> (b: Block)
    ensures
        b@ == namespace_block(*r),
{
    let mut f: Vec<Field> = Vec::new();
    f.push(field("IfIndex", decimal_string(r.ifindex as u64)));
    f.push(field("Netns Dev", hex_string(r.netns_dev)));
    f.push(field("Netns Ino", hex_string(r.netns_ino)));
    let b = block("Namespace & Device", f);
    proof {
        assert(b@.1 =~= namespace_block(*r).1);
    }
    b
}

/// The detail view of a record: identity, sizes, debug-type references and
/// namespace, each a titled block of labelled values.
pub fn detail_blocks(r: &MapRecord) -> (v: Vec<Block>)
    ensures
        blocks_view(v@) == detail_view(*r),
{
    let mut v: Vec<Block> = Vec::new();
    v.push(identity(r));
    v.push(sizes(r));
    v.push(btf(r));
    v.push(namespace(r));
    proof {
        assert(blocks_view(v@) =~= detail_view(*r));
    }
    v
}

/// How many of `n` blocks go to the left column: half, rounded up.
pub open spec fn left_count(n: nat) -> nat {
    (n + 1) / 2
}

/// Splits blocks into a left and a right column; the left one takes the
/// first half, rounded up, and the right one the rest, order kept.
pub fn split_columns<T>(blocks: Vec<T>) -> (r: (Vec<T>, Vec<T>))
    ensures
        r.0@ == blocks@.take(left_count(blocks@.len()) as int),
        r.1@ == blocks@.skip(left_count(blocks@.len()) as int),
        r.0@.len() == left_count(blocks@.len()),
        r.1@.len() == blocks@.len() / 2,
        r.0@ + r.1@ == blocks@,
{
    let mut left = blocks;
    let mid = left.len() / 2 + left.len() % 2;
    let right = left.split_off(mid);
    proof {
        assert(left@ + right@ =~= blocks@);
    }
    (left, right)
}

/// The two columns of the detail view of a captured record.
pub fn detail_columns(info: &MapInfo) -> (r: (Vec<Block>, Vec<Block>))
    ensures
        blocks_view(r.0@) == detail_view(info.item).take(2),
        blocks_view(r.1@) == detail_view(info.item).skip(2),
{
    let blocks = detail_blocks(&info.item);
    let ghost all = blocks@;
    let r = split_columns(blocks);
    proof {
        assert(blocks_view(all).len() == 4);
        assert(r.0@ == all.take(2));
        assert(blocks_view(r.0@) =~= blocks_view(all).take(2));
        assert(blocks_view(r.1@) =~= blocks_view(all).skip(2));
    }
    r
}

} // verus!
