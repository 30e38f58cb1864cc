use commitgraph_file::chunk::{chunk_id, ByteRange, ChunkTable};
use commitgraph_file::file::{first_parent, second_parent};
use commitgraph_file::error::{ChunkKind, HeaderField, Reason};
use commitgraph_file::{
    Commit, File, HashKind, Invariant, InvariantKind, OpenError, ParentEdge, Position,
};

const NO_PARENT: u32 = 0x7000_0000;
const OVERFLOW: u32 = 0x8000_0000;
const LAST: u32 = 0x8000_0000;

#[derive(Clone)]
struct Entry {
    id: Vec<u8>,
    tree: Vec<u8>,
    parent1: u32,
    parent2: u32,
    generation: u32,
    timestamp: u64,
}

struct Layout {
    hash_kind: u8,
    entries: Vec<Entry>,
    edges: Option<Vec<u32>>,
    base_graphs: Option<Vec<Vec<u8>>>,
    declared_base_graphs: u8,
    fan_override: Vec<(usize, u32)>,
    commit_data_padding: usize,
    drop_commit_data: bool,
}

fn hash_len(kind: u8) -> usize {
    if kind == 2 {
        32
    } else {
        20
    }
}

fn id_of(hash_len: usize, first: u8, last: u8) -> Vec<u8> {
    let mut id = vec![0u8; hash_len];
    id[0] = first;
    id[hash_len - 1] = last;
    id
}

/// Twelve commits without parents; commit `i` has the identifier that starts
/// with `3 * i` and the tree that starts with `0xA0 + i`.
fn plain(kind: u8) -> Layout {
    let hl = hash_len(kind);
    let mut entries = Vec::new();
    for i in 0..12u8 {
        entries.push(Entry {
            id: id_of(hl, 3 * i, i),
            tree: id_of(hl, 0xA0 + i, 1),
            parent1: NO_PARENT,
            parent2: NO_PARENT,
            generation: 0,
            timestamp: 1_600_000_000 + i as u64,
        });
    }
    Layout {
        hash_kind: kind,
        entries,
        edges: None,
        base_graphs: None,
        declared_base_graphs: 0,
        fan_override: Vec::new(),
        commit_data_padding: 0,
        drop_commit_data: false,
    }
}

fn encode(layout: &Layout) -> Vec<u8> {
    let mut fan = [0u32; 256];
    for e in &layout.entries {
        for b in (e.id[0] as usize)..256 {
            fan[b] += 1;
        }
    }
    for (i, v) in &layout.fan_override {
        fan[*i] = *v;
    }
    let mut chunks: Vec<(&[u8; 4], Vec<u8>)> = Vec::new();
    let mut oidf = Vec::new();
    for v in fan.iter() {
        oidf.extend_from_slice(&v.to_be_bytes());
    }
    chunks.push((b"OIDF", oidf));
    let mut oidl = Vec::new();
    for e in &layout.entries {
        oidl.extend_from_slice(&e.id);
    }
    chunks.push((b"OIDL", oidl));
    if !layout.drop_commit_data {
        let mut cdat = Vec::new();
        for e in &layout.entries {
            cdat.extend_from_slice(&e.tree);
            cdat.extend_from_slice(&e.parent1.to_be_bytes());
            cdat.extend_from_slice(&e.parent2.to_be_bytes());
            let packed: u64 = ((e.generation as u64) << 34) | e.timestamp;
            cdat.extend_from_slice(&packed.to_be_bytes());
        }
        for _ in 0..layout.commit_data_padding {
            cdat.push(0);
        }
        chunks.push((b"CDAT", cdat));
    }
    if let Some(edges) = &layout.edges {
        let mut edge = Vec::new();
        for v in edges {
            edge.extend_from_slice(&v.to_be_bytes());
        }
        chunks.push((b"EDGE", edge));
    }
    if let Some(list) = &layout.base_graphs {
        let mut base = Vec::new();
        for id in list {
            base.extend_from_slice(id);
        }
        chunks.push((b"BASE", base));
    }
    let mut out = Vec::new();
    out.extend_from_slice(b"CGPH");
    out.push(1);
    out.push(layout.hash_kind);
    out.push(chunks.len() as u8);
    out.push(layout.declared_base_graphs);
    let mut offset = (8 + (chunks.len() + 1) * 12) as u64;
    for (id, bytes) in &chunks {
        out.extend_from_slice(&id[..]);
        out.extend_from_slice(&offset.to_be_bytes());
        offset += bytes.len() as u64;
    }
    out.extend_from_slice(&[0u8; 4]);
    out.extend_from_slice(&offset.to_be_bytes());
    for (_, bytes) in &chunks {
        out.extend_from_slice(bytes);
    }
    out
}

fn open(layout: &Layout) -> File {
    File::from_bytes(encode(layout), String::from("graph")).expect("a file that opens")
}

fn open_err(bytes: Vec<u8>) -> OpenError {
    match File::from_bytes(bytes, String::from("graph")) {
        Ok(_) => panic!("the file must be refused"),
        Err(e) => e,
    }
}

#[test]
fn opens_a_plain_file() {
    let file = open(&plain(1));
    assert_eq!(file.num_commits(), 12);
    assert_eq!(file.object_hash(), HashKind::Sha1);
    assert_eq!(file.object_hash().len_in_bytes(), 20);
    assert_eq!(file.base_graph_count(), 0);
    assert_eq!(file.path().as_str(), "graph");
    assert_eq!(file.num_edges(), 0);
    assert_eq!(file.base_graphs_in_list(), None);
    assert_eq!(file.verify(), Ok(()));
}

#[test]
fn opens_a_file_of_long_identifiers() {
    let layout = plain(2);
    let file = open(&layout);
    assert_eq!(file.object_hash(), HashKind::Sha256);
    assert_eq!(file.num_commits(), 12);
    assert_eq!(file.identifier_at(Position(4)), &layout.entries[4].id[..]);
    assert_eq!(file.identifier_at(Position(4)).len(), 32);
    assert_eq!(file.commit_at(Position(4)).root_tree_id, layout.entries[4].tree);
    assert_eq!(file.locate(&layout.entries[11].id), Some(Position(11)));
    assert_eq!(file.verify(), Ok(()));
}

#[test]
fn fan_total_is_the_number_of_commits() {
    let layout = plain(1);
    let file = open(&layout);
    assert_eq!(file.fan_at(255), 12);
    assert_eq!(file.fan_at(255), file.num_commits());
    assert_eq!(file.fan_at(0), 1);
    assert_eq!(file.fan_at(2), 1);
    assert_eq!(file.fan_at(3), 2);
    assert_eq!(file.fan_at(33), 12);
}

#[test]
fn locate_finds_every_identifier_again() {
    let file = open(&plain(1));
    for p in 0..file.num_commits() {
        let id = file.identifier_at(Position(p)).to_vec();
        assert_eq!(file.locate(&id), Some(Position(p)));
    }
}

#[test]
fn locate_misses_what_is_not_there() {
    let file = open(&plain(1));
    assert_eq!(file.locate(&id_of(20, 3, 2)), None);
    assert_eq!(file.locate(&id_of(20, 4, 1)), None);
    assert_eq!(file.locate(&id_of(20, 255, 0)), None);
    assert_eq!(file.locate(&[3u8, 0, 1]), None);
    assert_eq!(file.locate(&id_of(32, 3, 1)), None);
}

#[test]
fn locate_tells_apart_identifiers_of_one_first_byte() {
    let mut layout = plain(1);
    layout.entries.clear();
    for i in 0..7u8 {
        layout.entries.push(Entry {
            id: id_of(20, 0x42, 10 * i),
            tree: id_of(20, 1, i),
            parent1: NO_PARENT,
            parent2: NO_PARENT,
            generation: 0,
            timestamp: 0,
        });
    }
    let file = open(&layout);
    assert_eq!(file.fan_at(0x41), 0);
    assert_eq!(file.fan_at(0x42), 7);
    for i in 0..7u8 {
        assert_eq!(file.locate(&id_of(20, 0x42, 10 * i)), Some(Position(i as u32)));
    }
    assert_eq!(file.locate(&id_of(20, 0x42, 5)), None);
    assert_eq!(file.locate(&id_of(20, 0x42, 61)), None);
}

#[test]
fn identifiers_ascend_with_positions() {
    let file = open(&plain(1));
    for p in 1..file.num_commits() {
        let before = file.identifier_at(Position(p - 1));
        let here = file.identifier_at(Position(p));
        assert!(before < here);
        assert_eq!(
            commitgraph_file::order::compare_ids(before, here),
            commitgraph_file::order::Relation::Before
        );
        assert_eq!(
            commitgraph_file::order::compare_ids(here, before),
            commitgraph_file::order::Relation::After
        );
        assert_eq!(
            commitgraph_file::order::compare_ids(here, here),
            commitgraph_file::order::Relation::Same
        );
    }
}

#[test]
fn decoding_twice_gives_the_same_commit() {
    let mut layout = plain(1);
    layout.entries[6].parent1 = 1;
    layout.entries[6].generation = 2;
    let file = open(&layout);
    for p in 0..file.num_commits() {
        let one: Commit = file.commit_at(Position(p));
        let two: Commit = file.commit_at(Position(p));
        assert_eq!(one, two);
        assert_eq!(file.parents(&one), file.parents(&two));
    }
}

#[test]
fn two_parents_decode_in_order() {
    let mut layout = plain(1);
    layout.entries[10].parent1 = 5;
    layout.entries[10].parent2 = 9;
    let tree = layout.entries[10].tree.clone();
    let file = open(&layout);
    let commit = file.commit_at(Position(10));
    assert_eq!(commit.position, Position(10));
    assert_eq!(commit.root_tree_id, tree);
    assert_eq!(commit.parent1, ParentEdge::Direct(Position(5)));
    assert_eq!(commit.parent2, ParentEdge::Direct(Position(9)));
    assert_eq!(file.parents(&commit), Some(vec![Position(5), Position(9)]));
}

#[test]
fn three_parents_decode_through_the_extended_edges() {
    let mut layout = plain(1);
    layout.entries[4].parent1 = 2;
    layout.entries[4].parent2 = OVERFLOW | 0;
    layout.edges = Some(vec![7, 11 | LAST]);
    let file = open(&layout);
    let commit = file.commit_at(Position(4));
    assert_eq!(commit.parent1, ParentEdge::Direct(Position(2)));
    assert_eq!(commit.parent2, ParentEdge::Overflow(0));
    assert_eq!(
        file.parents(&commit),
        Some(vec![Position(2), Position(7), Position(11)])
    );
    assert_eq!(file.num_edges(), 2);
    assert_eq!(file.edge_at(0), Some((Position(7), false)));
    assert_eq!(file.edge_at(1), Some((Position(11), true)));
    assert_eq!(file.edge_at(2), None);
}

#[test]
fn overflow_gives_one_parent_more_than_edges_walked() {
    let mut layout = plain(1);
    layout.entries[8].parent1 = 3;
    layout.entries[8].parent2 = OVERFLOW | 1;
    layout.edges = Some(vec![0 | LAST, 1, 2, 4, 5 | LAST, 6 | LAST]);
    let file = open(&layout);
    let commit = file.commit_at(Position(8));
    let parents = file.parents(&commit).expect("a chain that ends");
    assert_eq!(parents.len(), 1 + 4);
    assert_eq!(parents[0], Position(3));
    assert_eq!(
        parents,
        vec![Position(3), Position(1), Position(2), Position(4), Position(5)]
    );
}

#[test]
fn overflow_without_first_parent_lists_the_chain_alone() {
    let mut layout = plain(1);
    layout.entries[8].parent2 = OVERFLOW | 0;
    layout.edges = Some(vec![1, 2 | LAST]);
    let file = open(&layout);
    let commit = file.commit_at(Position(8));
    assert_eq!(commit.parent1, ParentEdge::Absent);
    assert_eq!(file.parents(&commit), Some(vec![Position(1), Position(2)]));
}

#[test]
fn parents_of_a_root_and_of_a_single_parent_commit() {
    let mut layout = plain(1);
    layout.entries[1].parent1 = 0;
    layout.entries[2].parent2 = 1;
    let file = open(&layout);
    assert_eq!(file.parents(&file.commit_at(Position(0))), Some(vec![]));
    assert_eq!(file.parents(&file.commit_at(Position(1))), Some(vec![Position(0)]));
    assert_eq!(file.parents(&file.commit_at(Position(2))), Some(vec![Position(1)]));
}

#[test]
fn generation_and_timestamp_are_unpacked() {
    let mut layout = plain(1);
    layout.entries[3].generation = 0x3FFF_FFFF;
    layout.entries[3].timestamp = 0x3_FFFF_FFFF;
    layout.entries[5].generation = 7;
    layout.entries[5].timestamp = 0x2_0000_0001;
    let file = open(&layout);
    let three = file.commit_at(Position(3));
    assert_eq!(three.generation, 0x3FFF_FFFF);
    assert_eq!(three.commit_timestamp, 0x3_FFFF_FFFF);
    let five = file.commit_at(Position(5));
    assert_eq!(five.generation, 7);
    assert_eq!(five.commit_timestamp, 8_589_934_593);
    assert_eq!(file.generation_at(Position(5)), 7);
    let zero = file.commit_at(Position(0));
    assert_eq!(zero.generation, 0);
    assert_eq!(zero.commit_timestamp, 1_600_000_000);
}

#[test]
fn read_u32_is_big_endian() {
    let bytes = [0u8, 0x12, 0x34, 0x56, 0x78, 0xFF];
    assert_eq!(commitgraph_file::bytes::read_u32(&bytes, 1), 0x1234_5678);
    assert_eq!(commitgraph_file::bytes::read_u32(&bytes, 2), 0x3456_78FF);
    assert_eq!(commitgraph_file::bytes::entry_offset(10, 3, 20, 4, 90), 70);
}

#[test]
fn parent_fields_decode() {
    assert_eq!(first_parent(NO_PARENT), ParentEdge::Absent);
    assert_eq!(first_parent(17), ParentEdge::Direct(Position(17)));
    assert_eq!(second_parent(NO_PARENT), ParentEdge::Absent);
    assert_eq!(second_parent(17), ParentEdge::Direct(Position(17)));
    assert_eq!(second_parent(0x8000_0000), ParentEdge::Overflow(0));
    assert_eq!(second_parent(0x8000_0011), ParentEdge::Overflow(17));
    assert_eq!(second_parent(0xF000_0000), ParentEdge::Overflow(0x7000_0000));
}

#[test]
fn truncated_commit_data_is_a_mismatch() {
    let mut layout = plain(1);
    layout.commit_data_padding = 17;
    assert_eq!(open_err(encode(&layout)), OpenError::Mismatch(ChunkKind::CommitData));
}

#[test]
fn whole_extra_entry_is_a_mismatch() {
    let mut layout = plain(1);
    layout.commit_data_padding = 36;
    assert_eq!(open_err(encode(&layout)), OpenError::Mismatch(ChunkKind::CommitData));
}

#[test]
fn lookup_of_another_size_is_a_mismatch() {
    // one commit declared and held, two identifiers listed
    let table = ChunkTable {
        oid_fanout: Some(ByteRange { start: 0, end: 1024 }),
        oid_lookup: Some(ByteRange { start: 1024, end: 1024 + 40 }),
        commit_data: Some(ByteRange { start: 1064, end: 1064 + 36 }),
        extended_edges: None,
        base_graphs: None,
    };
    let mut data = vec![0u8; 1100];
    data[1023] = 1;
    let r = File::from_chunks(data, String::new(), HashKind::Sha1, 0, table);
    assert_eq!(r.err(), Some(OpenError::Mismatch(ChunkKind::OidLookup)));
    let agreeing = ChunkTable {
        oid_lookup: Some(ByteRange { start: 1024, end: 1024 + 20 }),
        commit_data: Some(ByteRange { start: 1044, end: 1044 + 36 }),
        ..table
    };
    let mut data = vec![0u8; 1100];
    data[1023] = 1;
    let file = File::from_chunks(data, String::from("one"), HashKind::Sha1, 3, agreeing)
        .expect("a file of one commit");
    assert_eq!(file.num_commits(), 1);
    assert_eq!(file.base_graph_count(), 3);
    assert_eq!(file.path().as_str(), "one");
}

#[test]
fn header_is_validated() {
    assert_eq!(open_err(vec![]), OpenError::Corrupt(Reason::TooShort));
    assert_eq!(open_err(b"CGPH\x01\x01\x03".to_vec()), OpenError::Corrupt(Reason::TooShort));
    let good = encode(&plain(1));
    let mut bytes = good.clone();
    bytes[3] = b'X';
    assert_eq!(open_err(bytes), OpenError::HeaderInvalid(HeaderField::Signature));
    let mut bytes = good.clone();
    bytes[4] = 2;
    assert_eq!(open_err(bytes), OpenError::HeaderInvalid(HeaderField::Version));
    let mut bytes = good.clone();
    bytes[5] = 3;
    assert_eq!(open_err(bytes), OpenError::HeaderInvalid(HeaderField::HashKind));
    let mut bytes = good.clone();
    bytes[5] = 0;
    assert_eq!(open_err(bytes), OpenError::HeaderInvalid(HeaderField::HashKind));
    assert_eq!(HashKind::from_byte(1), Some(HashKind::Sha1));
    assert_eq!(HashKind::from_byte(2), Some(HashKind::Sha256));
    assert_eq!(HashKind::from_byte(0), None);
    assert_eq!(HashKind::Sha256.len_in_bytes(), 32);
}

#[test]
fn unreadable_chunk_table_is_corrupt() {
    let good = encode(&plain(1));
    let mut bytes = good.clone();
    bytes[6] = 4;
    assert_eq!(open_err(bytes), OpenError::Corrupt(Reason::ChunkTable));
    let mut bytes = good.clone();
    bytes[6] = 0;
    assert_eq!(open_err(bytes), OpenError::Corrupt(Reason::ChunkTable));
    assert_eq!(open_err(good[..20].to_vec()), OpenError::Corrupt(Reason::ChunkTable));
    assert_eq!(open_err(good[..1500].to_vec()), OpenError::Corrupt(Reason::ChunkTable));
}

#[test]
fn required_chunks_must_be_there() {
    let mut layout = plain(1);
    layout.drop_commit_data = true;
    assert_eq!(open_err(encode(&layout)), OpenError::MissingChunk(ChunkKind::CommitData));
    let none = ChunkTable {
        oid_fanout: None,
        oid_lookup: None,
        commit_data: None,
        extended_edges: None,
        base_graphs: None,
    };
    let r = File::from_chunks(vec![0u8; 2000], String::new(), HashKind::Sha1, 0, none);
    assert_eq!(r.err(), Some(OpenError::MissingChunk(ChunkKind::OidFanout)));
    let fan_only = ChunkTable { oid_fanout: Some(ByteRange { start: 0, end: 1024 }), ..none };
    let r = File::from_chunks(vec![0u8; 2000], String::new(), HashKind::Sha1, 0, fan_only);
    assert_eq!(r.err(), Some(OpenError::MissingChunk(ChunkKind::OidLookup)));
}

#[test]
fn chunks_must_lie_inside_the_file() {
    let table = ChunkTable {
        oid_fanout: Some(ByteRange { start: 0, end: 1024 }),
        oid_lookup: Some(ByteRange { start: 1024, end: 1024 }),
        commit_data: Some(ByteRange { start: 1024, end: 1024 }),
        extended_edges: None,
        base_graphs: None,
    };
    let open = |t: ChunkTable, len: usize| {
        File::from_chunks(vec![0u8; len], String::new(), HashKind::Sha1, 0, t).err()
    };
    assert_eq!(open(table, 1024), None);
    assert_eq!(
        open(table, 1023),
        Some(OpenError::Corrupt(Reason::ChunkOutOfBounds(ChunkKind::OidFanout)))
    );
    let t = ChunkTable { oid_lookup: Some(ByteRange { start: 30, end: 20 }), ..table };
    assert_eq!(
        open(t, 1024),
        Some(OpenError::Corrupt(Reason::ChunkOutOfBounds(ChunkKind::OidLookup)))
    );
    let t = ChunkTable { commit_data: Some(ByteRange { start: 0, end: u64::MAX }), ..table };
    assert_eq!(
        open(t, 1024),
        Some(OpenError::Corrupt(Reason::ChunkOutOfBounds(ChunkKind::CommitData)))
    );
    let t = ChunkTable { extended_edges: Some(ByteRange { start: 1020, end: 1028 }), ..table };
    assert_eq!(
        open(t, 1024),
        Some(OpenError::Corrupt(Reason::ChunkOutOfBounds(ChunkKind::ExtendedEdges)))
    );
    let t = ChunkTable { base_graphs: Some(ByteRange { start: 1025, end: 1025 }), ..table };
    assert_eq!(
        open(t, 1024),
        Some(OpenError::Corrupt(Reason::ChunkOutOfBounds(ChunkKind::BaseGraphs)))
    );
    let t = ChunkTable { oid_fanout: Some(ByteRange { start: 0, end: 1020 }), ..table };
    assert_eq!(open(t, 1024), Some(OpenError::Corrupt(Reason::FanoutSize)));
}

#[test]
fn empty_layout_holds_no_commit() {
    let table = ChunkTable {
        oid_fanout: Some(ByteRange { start: 0, end: 1024 }),
        oid_lookup: Some(ByteRange { start: 1024, end: 1024 }),
        commit_data: Some(ByteRange { start: 1024, end: 1024 }),
        extended_edges: None,
        base_graphs: None,
    };
    let file = File::from_chunks(vec![0u8; 1024], String::from("p"), HashKind::Sha1, 0, table)
        .expect("an empty file");
    assert_eq!(file.num_commits(), 0);
    assert_eq!(file.locate(&[0u8; 20]), None);
    assert_eq!(file.edge_at(0), None);
    assert_eq!(file.verify(), Ok(()));
}

#[test]
fn verify_reports_fanout_that_decreases() {
    let mut layout = plain(1);
    // fan[5] is 2 and fan[6] is 3 in the plain file
    layout.fan_override = vec![(5, 4)];
    let file = open(&layout);
    assert!(file.fan_at(5) > file.fan_at(6));
    assert_eq!(
        file.verify(),
        Err(Invariant { kind: InvariantKind::FanoutNotMonotonic, position: 6 })
    );
}

#[test]
fn verify_reports_the_first_fanout_index() {
    let mut layout = plain(1);
    layout.fan_override = vec![(5, 4), (100, 3)];
    let file = open(&layout);
    assert_eq!(
        file.verify(),
        Err(Invariant { kind: InvariantKind::FanoutNotMonotonic, position: 6 })
    );
}

#[test]
fn verify_reports_generation_not_above_a_parent() {
    let mut layout = plain(1);
    layout.entries[1].generation = 5;
    layout.entries[3].parent1 = 0;
    layout.entries[3].parent2 = 1;
    layout.entries[3].generation = 5;
    let file = open(&layout);
    assert_eq!(
        file.verify(),
        Err(Invariant { kind: InvariantKind::GenerationNotMonotonic, position: 3 })
    );
    assert_eq!(
        file.check_commit(Position(3)),
        Some(InvariantKind::GenerationNotMonotonic)
    );
    layout.entries[3].generation = 4;
    assert_eq!(
        open(&layout).verify(),
        Err(Invariant { kind: InvariantKind::GenerationNotMonotonic, position: 3 })
    );
    layout.entries[3].generation = 6;
    assert_eq!(open(&layout).verify(), Ok(()));
    layout.entries[3].generation = 0;
    assert_eq!(open(&layout).verify(), Ok(()));
}

#[test]
fn verify_checks_generations_along_extended_edges() {
    let mut layout = plain(1);
    layout.entries[9].parent1 = 0;
    layout.entries[9].parent2 = OVERFLOW;
    layout.entries[9].generation = 3;
    layout.entries[2].generation = 3;
    layout.edges = Some(vec![1, 2 | LAST]);
    assert_eq!(
        open(&layout).verify(),
        Err(Invariant { kind: InvariantKind::GenerationNotMonotonic, position: 9 })
    );
    layout.entries[2].generation = 2;
    assert_eq!(open(&layout).verify(), Ok(()));
}

#[test]
fn verify_reports_identifiers_out_of_order() {
    let mut layout = plain(1);
    layout.entries.swap(4, 5);
    layout.fan_override = Vec::new();
    let file = open(&layout);
    assert_eq!(
        file.verify(),
        Err(Invariant { kind: InvariantKind::OidsUnordered, position: 5 })
    );
    let mut layout = plain(1);
    layout.entries[7].id = layout.entries[6].id.clone();
    assert_eq!(
        open(&layout).verify(),
        Err(Invariant { kind: InvariantKind::OidsUnordered, position: 7 })
    );
}

#[test]
fn verify_reports_parents_out_of_range() {
    let mut layout = plain(1);
    layout.entries[2].parent1 = 12;
    assert_eq!(
        open(&layout).verify(),
        Err(Invariant { kind: InvariantKind::ParentOutOfRange, position: 2 })
    );
    layout.entries[2].parent1 = 11;
    assert_eq!(open(&layout).verify(), Ok(()));
    layout.entries[2].parent2 = 4000;
    assert_eq!(
        open(&layout).verify(),
        Err(Invariant { kind: InvariantKind::ParentOutOfRange, position: 2 })
    );
    layout.entries[2].parent2 = OVERFLOW | 3;
    assert_eq!(
        open(&layout).verify(),
        Err(Invariant { kind: InvariantKind::ParentOutOfRange, position: 2 })
    );
    layout.edges = Some(vec![1, 2, 3, 40 | LAST]);
    assert_eq!(
        open(&layout).verify(),
        Err(Invariant { kind: InvariantKind::ParentOutOfRange, position: 2 })
    );
    layout.edges = Some(vec![1, 2, 3, 4 | LAST]);
    assert_eq!(open(&layout).verify(), Ok(()));
}

#[test]
fn verify_reports_a_chain_that_does_not_end() {
    let mut layout = plain(1);
    layout.entries[6].parent1 = 1;
    layout.entries[6].parent2 = OVERFLOW | 1;
    layout.edges = Some(vec![2 | LAST, 3, 4]);
    let file = open(&layout);
    assert_eq!(file.parents(&file.commit_at(Position(6))), None);
    assert_eq!(
        file.verify(),
        Err(Invariant { kind: InvariantKind::DanglingEdgeChain, position: 6 })
    );
}

#[test]
fn verify_reports_the_first_commit_at_fault() {
    let mut layout = plain(1);
    layout.entries[8].parent1 = 50;
    layout.entries[5].parent1 = 1;
    layout.entries[5].generation = 1;
    layout.entries[1].generation = 1;
    assert_eq!(
        open(&layout).verify(),
        Err(Invariant { kind: InvariantKind::GenerationNotMonotonic, position: 5 })
    );
}

#[test]
fn verify_counts_the_base_graphs() {
    let mut layout = plain(1);
    layout.base_graphs = Some(vec![id_of(20, 1, 1), id_of(20, 2, 2)]);
    layout.declared_base_graphs = 2;
    let file = open(&layout);
    assert_eq!(file.base_graph_count(), 2);
    assert_eq!(file.base_graphs_in_list(), Some(2));
    assert_eq!(file.verify(), Ok(()));
    layout.declared_base_graphs = 3;
    assert_eq!(
        open(&layout).verify(),
        Err(Invariant { kind: InvariantKind::BaseGraphCount, position: 0 })
    );
}

#[test]
fn chunk_identifiers_are_ascii() {
    assert_eq!(&chunk_id(ChunkKind::OidFanout), b"OIDF");
    assert_eq!(&chunk_id(ChunkKind::OidLookup), b"OIDL");
    assert_eq!(&chunk_id(ChunkKind::CommitData), b"CDAT");
    assert_eq!(&chunk_id(ChunkKind::ExtendedEdges), b"EDGE");
    assert_eq!(&chunk_id(ChunkKind::BaseGraphs), b"BASE");
}

#[test]
fn positions_order_as_their_numbers() {
    assert!(Position(3) < Position(4));
    assert_eq!(Position(7), Position(7));
    assert_eq!(Position(7).0, 7);
}

#[test]
fn fan_is_held_against_the_identifiers() {
    let mut layout = plain(1);
    assert!(open(&layout).fan_matches_ids());
    layout.fan_override = vec![(5, 4)];
    assert!(!open(&layout).fan_matches_ids());
    layout.fan_override = vec![(0, 0)];
    let file = open(&layout);
    assert!(!file.fan_matches_ids());
    assert_eq!(file.verify(), Ok(()));
}

#[test]
fn locate_is_safe_on_a_fan_that_points_past_the_end() {
    let mut layout = plain(1);
    layout.fan_override = vec![(8, 4000), (9, 5000)];
    let file = open(&layout);
    assert_eq!(file.locate(&id_of(20, 9, 3)), None);
    assert_eq!(file.locate(&id_of(20, 8, 3)), None);
    assert_eq!(file.locate(&id_of(20, 6, 2)), Some(Position(2)));
}

#[test]
fn base_graph_identifiers_are_handed_out() {
    let mut layout = plain(1);
    layout.base_graphs = Some(vec![id_of(20, 1, 1), id_of(20, 2, 2)]);
    layout.declared_base_graphs = 2;
    let file = open(&layout);
    assert_eq!(file.base_graph_id_at(0), Some(&id_of(20, 1, 1)[..]));
    assert_eq!(file.base_graph_id_at(1), Some(&id_of(20, 2, 2)[..]));
    assert_eq!(file.base_graph_id_at(2), None);
    assert_eq!(open(&plain(1)).base_graph_id_at(0), None);
}

#[test]
fn commits_come_in_the_order_of_positions() {
    let mut layout = plain(1);
    layout.entries[7].parent1 = 2;
    let file = open(&layout);
    let all = file.commits();
    assert_eq!(all.len(), 12);
    for p in 0..12u32 {
        assert_eq!(all[p as usize], file.commit_at(Position(p)));
        assert_eq!(all[p as usize].position, Position(p));
        assert_eq!(all[p as usize].root_tree_id, layout.entries[p as usize].tree);
    }
    assert_eq!(all[7].parent1, ParentEdge::Direct(Position(2)));
}
