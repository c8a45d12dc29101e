use vstd::prelude::*;

verus! {

/// `256` to the power `n`.
pub open spec fn pow256(n: nat) -> nat
    decreases n,
{
    if n == 0 {
        1
    } else {
        256 * pow256((n - 1) as nat)
    }
}

/// The unsigned integer that the bytes `s` encode, least significant byte first.
pub open spec fn le_value(s: Seq<u8>) -> nat
    decreases s.len(),
{
    if s.len() == 0 {
        0
    } else {
        s[0] as nat + 256 * le_value(s.drop_first())
    }
}

/// The `n` bytes that encode `v`, least significant byte first.
pub open spec fn le_bytes(v: nat, n: nat) -> Seq<u8> {
    Seq::new(n, |i: int| ((v / pow256(i as nat)) % 256) as u8)
}

/// The two's complement reading of a 64-bit pattern.
pub open spec fn signed64(v: nat) -> int {
    if v < 0x8000_0000_0000_0000 {
        v as int
    } else {
        v - 0x1_0000_0000_0000_0000
    }
}

/// The little-endian `u64` at offset `at` of `s`.
pub open spec fn u64_at(s: Seq<u8>, at: int) -> u64 {
    le_value(s.subrange(at, at + 8)) as u64
}

/// The little-endian `u16` at offset `at` of `s`.
pub open spec fn u16_at(s: Seq<u8>, at: int) -> u16 {
    le_value(s.subrange(at, at + 2)) as u16
}

/// The little-endian `i64` at offset `at` of `s`.
pub open spec fn i64_at(s: Seq<u8>, at: int) -> i64 {
    signed64(le_value(s.subrange(at, at + 8))) as i64
}

pub proof fn lemma_pow256_grows(a: nat, b: nat)
    requires
        a <= b,
    ensures
        1 <= pow256(a) <= pow256(b),
    decreases b,
{
    if b > a {
        lemma_pow256_grows(a, (b - 1) as nat);
    } else if a > 0 {
        lemma_pow256_grows((a - 1) as nat, (a - 1) as nat);
    }
}

proof fn lemma_pow256_8()
    ensures
        pow256(8) == 0x1_0000_0000_0000_0000,
{
    reveal_with_fuel(pow256, 9);
}

/// Peeling the first byte off a window of `s`.
proof fn lemma_le_value_window(s: Seq<u8>, j: int, e: int)
    requires
        0 <= j < e <= s.len(),
    ensures
        le_value(s.subrange(j, e)) == s[j] as nat + 256 * le_value(s.subrange(j + 1, e)),
{
    assert(s.subrange(j, e).drop_first() =~= s.subrange(j + 1, e));
}

/// Encoding a value that fits in `n` bytes and reading it back gives the value.
pub proof fn lemma_le_round_trip(v: nat, n: nat)
    requires
        v < pow256(n),
    ensures
        le_value(le_bytes(v, n)) == v,
    decreases n,
{
    if n == 0 {
    } else {
        let s = le_bytes(v, n);
        let t = le_bytes(v / 256, (n - 1) as nat);
        assert forall|i: int| 0 <= i < t.len() implies s.drop_first()[i] == t[i] by {
            lemma_pow256_grows(0, i as nat);
            vstd::arithmetic::div_mod::lemma_div_denominator(v as int, 256, pow256(i as nat) as int);
        }
        assert(s.drop_first() =~= t);
        assert(v / 256 < pow256((n - 1) as nat)) by (nonlinear_arith)
            requires
                v < 256 * pow256((n - 1) as nat),
        ;
        lemma_le_round_trip(v / 256, (n - 1) as nat);
        assert(pow256(0) == 1);
        assert(v / 1 == v);
        assert(s[0] == v % 256);
    }
}

/// Reads the `n`-byte little-endian integer at offset `at` of `data`.
pub fn read_le(data: &[u8], at: usize, n: usize) -> (v: u64)
    requires
        n <= 8,
        at + n <= data@.len(),
    ensures
        v == le_value(data@.subrange(at as int, at + n)),
{
    let len = data.len();
    let mut v: u64 = 0;
    let mut i: usize = n;
    proof {
        assert(data@.subrange(at + n, at + n) =~= Seq::<u8>::empty());
        lemma_pow256_8();
    }
    while i > 0
        invariant
            i <= n <= 8,
            at + n <= data@.len(),
            data@.len() == len,
            v == le_value(data@.subrange(at + i, at + n)),
            v < pow256((n - i) as nat),
            pow256(8) == 0x1_0000_0000_0000_0000,
        decreases i,
    {
        i = i - 1;
        proof {
            lemma_le_value_window(data@, at + i, at + n);
            lemma_pow256_grows((n - i) as nat, 8);
            assert(pow256((n - i) as nat) == 256 * pow256((n - i - 1) as nat));
        }
        v = v * 256 + data[at + i] as u64;
    }
    v
}

/// Reads the little-endian `u64` at offset `at` of `data`.
pub fn read_u64(data: &[u8], at: usize) -> (v: u64)
    requires
        at + 8 <= data@.len(),
    ensures
        v == u64_at(data@, at as int),
{
    read_le(data, at, 8)
}

/// Reads the little-endian `u16` at offset `at` of `data`.
pub fn read_u16(data: &[u8], at: usize) -> (v: u16)
    requires
        at + 2 <= data@.len(),
    ensures
        v == u16_at(data@, at as int),
{
    let w = read_le(data, at, 2);
    proof {
        lemma_le_value_window(data@, at as int, at + 2);
        lemma_le_value_window(data@, at + 1, at + 2);
        assert(data@.subrange(at + 2, at + 2) =~= Seq::<u8>::empty());
    }
    w as u16
}

/// Reads the little-endian `i64` at offset `at` of `data`.
pub fn read_i64(data: &[u8], at: usize) -> (v: i64)
    requires
        at + 8 <= data@.len(),
    ensures
        v == i64_at(data@, at as int),
{
    let w = read_le(data, at, 8);
    if w < 0x8000_0000_0000_0000 {
        w as i64
    } else {
        i64::MIN + (w - 0x8000_0000_0000_0000) as i64
    }
}

/// Copies the 32 bytes at offset `at` of `data`.
pub fn read_array32(data: &[u8], at: usize) -> (r: [u8; 32])
    requires
        at + 32 <= data@.len(),
    ensures
        r@ == data@.subrange(at as int, at + 32),
{
    let len = data.len();
    let mut r = [0u8; 32];
    let mut i: usize = 0;
    while i < 32
        invariant
            i <= 32,
            at + 32 <= data@.len(),
            data@.len() == len,
            forall|j: int| 0 <= j < i ==> r@[j] == data@[at + j],
        decreases 32 - i,
    {
        r[i] = data[at + i];
        i = i + 1;
    }
    assert(r@ =~= data@.subrange(at as int, at + 32));
    r
}

/// Appends the `n` little-endian bytes of `v`.
pub fn push_le(out: &mut Vec<u8>, v: u64, n: usize)
    requires
        n <= 8,
    ensures
        final(out)@ == old(out)@ + le_bytes(v as nat, n as nat),
{
    let mut w: u64 = v;
    let mut i: usize = 0;
    assert(pow256(0) == 1 && v as nat / 1 == v);
    while i < n
        invariant
            i <= n <= 8,
            out@ == old(out)@ + le_bytes(v as nat, n as nat).subrange(0, i as int),
            w == v as nat / pow256(i as nat),
        decreases n - i,
    {
        proof {
            lemma_pow256_grows(0, i as nat);
            vstd::arithmetic::div_mod::lemma_div_denominator(v as int, pow256(i as nat) as int, 256);
            assert(pow256((i + 1) as nat) == 256 * pow256(i as nat));
        }
        out.push((w % 256) as u8);
        w = w / 256;
        proof {
            assert(out@ =~= old(out)@ + le_bytes(v as nat, n as nat).subrange(0, i + 1));
        }
        i = i + 1;
    }
    assert(le_bytes(v as nat, n as nat).subrange(0, n as int) =~= le_bytes(v as nat, n as nat));
}

/// Appends the bytes of `a`.
pub fn push_array32(out: &mut Vec<u8>, a: &[u8; 32])
    ensures
        final(out)@ == old(out)@ + a@,
{
    let mut i: usize = 0;
    while i < 32
        invariant
            i <= 32,
            out@ == old(out)@ + a@.subrange(0, i as int),
        decreases 32 - i,
    {
        out.push(a[i]);
        proof {
            assert(out@ =~= old(out)@ + a@.subrange(0, i + 1));
        }
        i = i + 1;
    }
    assert(a@.subrange(0, 32) =~= a@);
}

/// The byte views of a list of seeds.
pub open spec fn seed_views(seeds: Seq<Vec<u8>>) -> Seq<Seq<u8>> {
    seeds.map_values(|s: Vec<u8>| s@)
}

/// The bytes of an address as a vector.
pub fn bytes_of(a: &[u8; 32]) -> (r: Vec<u8>)
    ensures
        r@ == a@,
{
    let mut v: Vec<u8> = Vec::new();
    push_array32(&mut v, a);
    assert(v@ =~= a@);
    v
}

/// Whether two addresses hold the same bytes.
pub fn same_address(a: &[u8; 32], b: &[u8; 32]) -> (r: bool)
    ensures
        r == (a@ == b@),
{
    let mut i: usize = 0;
    while i < 32
        invariant
            i <= 32,
            forall|j: int| 0 <= j < i ==> a@[j] == b@[j],
        decreases 32 - i,
    {
        if a[i] != b[i] {
            return false;
        }
        i = i + 1;
    }
    assert(a@ =~= b@);
    true
}

} // verus!
