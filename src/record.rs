//! One kernel map's metadata as fetched, and the names of map types.

use vstd::prelude::*;
use crate::text::{decimal_string, decimal_text};

verus! {

/// A point-in-time copy of one kernel map's metadata.
#[derive(Clone, Debug)]
pub struct MapRecord {
    pub id: u32,
    /// Raw name buffer; it may lack a terminating zero byte.
    pub name: Vec<u8>,
    pub type_: u32,
    pub key_size: u32,
    pub value_size: u32,
    pub max_entries: u32,
    pub map_flags: u32,
    pub map_extra: u64,
    pub btf_id: u32,
    pub btf_key_type_id: u32,
    pub btf_value_type_id: u32,
    pub btf_vmlinux_value_type_id: u32,
    pub btf_vmlinux_id: u32,
    pub ifindex: u32,
    pub netns_dev: u64,
    pub netns_ino: u64,
}

/// The kernel's name of a known map type code.
pub open spec fn known_type_name(t: u32) -> Option<Seq<char>> {
    match t {
        0 => Some("unspec"@),
        1 => Some("hash"@),
        2 => Some("array"@),
        3 => Some("prog_array"@),
        4 => Some("perf_event_array"@),
        5 => Some("percpu_hash"@),
        6 => Some("percpu_array"@),
        7 => Some("stack_trace"@),
        8 => Some("cgroup_array"@),
        9 => Some("lru_hash"@),
        10 => Some("lru_percpu_hash"@),
        11 => Some("lpm_trie"@),
        12 => Some("array_of_maps"@),
        13 => Some("hash_of_maps"@),
        14 => Some("devmap"@),
        15 => Some("sockmap"@),
        16 => Some("cpumap"@),
        17 => Some("xskmap"@),
        18 => Some("sockhash"@),
        19 => Some("cgroup_storage"@),
        20 => Some("reuseport_sockarray"@),
        21 => Some("percpu_cgroup_storage"@),
        22 => Some("queue"@),
        23 => Some("stack"@),
        24 => Some("sk_storage"@),
        25 => Some("devmap_hash"@),
        26 => Some("struct_ops"@),
        27 => Some("ringbuf"@),
        28 => Some("inode_storage"@),
        29 => Some("task_storage"@),
        30 => Some("bloom_filter"@),
        31 => Some("user_ringbuf"@),
        32 => Some("cgrp_storage"@),
        33 => Some("arena"@),
        34 => Some("insn_array"@),
        _ => None,
    }
}

/// The label of a map type: its known name, or its decimal code where the
/// code is unknown.
pub open spec fn type_label(t: u32) -> Seq<char> {
    match known_type_name(t) {
        Some(n) => n,
        None => decimal_text(t as nat),
    }
}

fn known_type_str(t: u32) -> (r: Option<&'static str>)
    ensures
        r matches Some(s) ==> known_type_name(t) == Some(s@),
        r is None ==> known_type_name(t) is None,
{
    match t {
        0 => Some("unspec"),
        1 => Some("hash"),
        2 => Some("array"),
        3 => Some("prog_array"),
        4 => Some("perf_event_array"),
        5 => Some("percpu_hash"),
        6 => Some("percpu_array"),
        7 => Some("stack_trace"),
        8 => Some("cgroup_array"),
        9 => Some("lru_hash"),
        10 => Some("lru_percpu_hash"),
        11 => Some("lpm_trie"),
        12 => Some("array_of_maps"),
        13 => Some("hash_of_maps"),
        14 => Some("devmap"),
        15 => Some("sockmap"),
        16 => Some("cpumap"),
        17 => Some("xskmap"),
        18 => Some("sockhash"),
        19 => Some("cgroup_storage"),
        20 => Some("reuseport_sockarray"),
        21 => Some("percpu_cgroup_storage"),
        22 => Some("queue"),
        23 => Some("stack"),
        24 => Some("sk_storage"),
        25 => Some("devmap_hash"),
        26 => Some("struct_ops"),
        27 => Some("ringbuf"),
        28 => Some("inode_storage"),
        29 => Some("task_storage"),
        30 => Some("bloom_filter"),
        31 => Some("user_ringbuf"),
        32 => Some("cgrp_storage"),
        33 => Some("arena"),
        34 => Some("insn_array"),
        _ => None,
    }
}

/// The label of a map type code; unknown codes give their decimal number.
pub fn map_type_label(t: u32) -> (r: String)
    ensures
        r@ == type_label(t),
{
    match known_type_str(t) {
        Some(s) => String::from_str(s),
        None => decimal_string(t as u64),
    }
}

} // verus!
