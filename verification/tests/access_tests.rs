use system_core::Access;

fn build(reads: &[u64], writes: &[u64]) -> Access {
    let mut access = Access::new();
    for &id in reads {
        access.add_read(id);
    }
    for &id in writes {
        access.add_write(id);
    }
    access
}

#[test]
fn disjoint_sets_do_not_conflict() {
    let a = build(&[1, 2], &[3]);
    let b = build(&[4, 5], &[6]);
    assert!(a.is_compatible(&b));
    assert!(b.is_compatible(&a));
    assert!(!a.conflicts(&b));
    assert!(!b.conflicts(&a));
}

#[test]
fn overlapping_writes_conflict() {
    let a = build(&[], &[7]);
    let b = build(&[], &[7]);
    assert!(a.conflicts(&b));
    assert!(b.conflicts(&a));
}

#[test]
fn write_against_read_conflicts() {
    let a = build(&[], &[9]);
    let b = build(&[9], &[]);
    assert!(a.conflicts(&b));
    assert!(b.conflicts(&a));
}

#[test]
fn shared_reads_do_not_conflict() {
    let a = build(&[1, 2, 3], &[]);
    let b = build(&[2, 3, 4], &[]);
    assert!(!a.conflicts(&b));
    assert!(!b.conflicts(&a));
}

#[test]
fn write_implies_read() {
    let a = build(&[], &[11]);
    assert!(a.has_read(11));
    assert!(a.has_write(11));
    assert!(!a.has_write(12));
}

#[test]
fn extend_merges_claims() {
    let mut a = build(&[1], &[2]);
    let b = build(&[3], &[4]);
    a.extend(&b);
    assert!(a.has_read(1));
    assert!(a.has_read(3));
    assert!(a.has_write(2));
    assert!(a.has_write(4));
    assert!(!a.has_write(3));
}

/// A deterministic pseudo-random generator (linear congruential).
struct Lcg(u64);

impl Lcg {
    fn next(&mut self) -> u64 {
        self.0 = self.0.wrapping_mul(6364136223846793005).wrapping_add(1442695040888963407);
        self.0 >> 33
    }
}

fn naive_conflict(a_reads: &[u64], a_writes: &[u64], b_reads: &[u64], b_writes: &[u64]) -> bool {
    let touches = |reads: &[u64], writes: &[u64], id: u64| {
        reads.contains(&id) || writes.contains(&id)
    };
    a_writes.iter().any(|&id| touches(b_reads, b_writes, id))
        || b_writes.iter().any(|&id| touches(a_reads, a_writes, id))
}

#[test]
fn random_sets_match_naive_conflict_model() {
    let mut rng = Lcg(42);
    for _ in 0..200 {
        let mut sets: Vec<Vec<u64>> = Vec::new();
        for _ in 0..4 {
            let len = (rng.next() % 5) as usize;
            let mut ids: Vec<u64> = Vec::new();
            for _ in 0..len {
                ids.push(rng.next() % 8);
            }
            sets.push(ids);
        }
        let (ar, aw, br, bw) = (&sets[0], &sets[1], &sets[2], &sets[3]);
        let a = build(ar, aw);
        let b = build(br, bw);
        assert_eq!(a.conflicts(&b), naive_conflict(ar, aw, br, bw));
        assert_eq!(b.conflicts(&a), a.conflicts(&b));
        assert_eq!(a.is_compatible(&b), !a.conflicts(&b));
    }
}
