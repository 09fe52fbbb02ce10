//! ToUnicode code maps: two-byte source codes mapped to sequences of UTF-16
//! code units, with lookup and the derived reverse map used to re-encode text.

use std::collections::HashMap;
use vstd::prelude::*;

verus! {

broadcast use vstd::std_specs::hash::group_hash_axioms;

/// The code unit that stands for a source code the map does not hold.
pub const REPLACEMENT_CHAR: u16 = 0xFFFD;

/// What source code `code` decodes to under `m`: its target, or U+FFFD.
pub open spec fn lookup_or_replacement(m: Map<u16, Seq<u16>>, code: u16) -> Seq<u16> {
    if m.contains_key(code) {
        m[code]
    } else {
        seq![REPLACEMENT_CHAR]
    }
}

/// Source code `c` decodes to the single code unit `u`.
pub open spec fn maps_alone_to(m: Map<u16, Seq<u16>>, c: u16, u: u16) -> bool {
    m.contains_key(c) && m[c] == seq![u]
}

/// `c` is the smallest source code that decodes to the single unit `u`.
pub open spec fn is_first_code_for(m: Map<u16, Seq<u16>>, c: u16, u: u16) -> bool {
    maps_alone_to(m, c, u) && forall|d: u16| #[trigger] maps_alone_to(m, d, u) ==> c <= d
}

/// The reverse of `m`: each code unit that some source code decodes to on its
/// own, mapped to the smallest such source code.
pub open spec fn best_reverse(m: Map<u16, Seq<u16>>) -> Map<u16, u16> {
    Map::new(
        |u: u16| exists|c: u16| #[trigger] maps_alone_to(m, c, u),
        |u: u16| choose|c: u16| is_first_code_for(m, c, u),
    )
}

/// A map from two-byte source codes to the code units they stand for.
pub struct ToUnicodeCMap {
    map: HashMap<u16, Vec<u16>>,
}

impl View for ToUnicodeCMap {
    type V = Map<u16, Seq<u16>>;

    closed spec fn view(&self) -> Map<u16, Seq<u16>> {
        self.map@.map_values(|v: Vec<u16>| v@)
    }
}

impl ToUnicodeCMap {
    /// A map that holds no source code.
    pub fn new() -> (r: Self)
        ensures
            r@ == Map::<u16, Seq<u16>>::empty(),
    {
        let r = ToUnicodeCMap { map: HashMap::new() };
        assert(r@ =~= Map::<u16, Seq<u16>>::empty());
        r
    }

    /// Maps `code` to `target`, replacing what it was mapped to before.
    pub fn put(&mut self, code: u16, target: Vec<u16>)
        ensures
            final(self)@ == old(self)@.insert(code, target@),
    {
        let ghost t = target@;
        self.map.insert(code, target);
        assert(self@ =~= old(self)@.insert(code, t));
    }

    /// The code units that `code` stands for, or U+FFFD alone when the map
    /// does not hold it.
    pub fn get_or_replacement_char(&self, code: u16) -> (r: Vec<u16>)
        ensures
            r@ == lookup_or_replacement(self@, code),
    {
        match self.map.get(&code) {
            Some(v) => {
                let r = v.clone();
                assert(r@ =~= v@);
                r
            },
            None => vec![REPLACEMENT_CHAR],
        }
    }

    /// The reverse map used to re-encode text: each code unit that a source
    /// code decodes to on its own, mapped to the smallest such source code.
    pub fn get_best_possible_reverse_map(&self) -> (r: HashMap<u16, u16>)
        ensures
            r@ == best_reverse(self@),
    {
        let ghost m = self@;
        let mut rev: HashMap<u16, u16> = HashMap::new();
        let mut i: u32 = 0;
        while i < 0x10000
            invariant
                i <= 0x10000,
                m == self@,
                forall|c: u16, u: u16|
                    (c as u32) < i && #[trigger] maps_alone_to(m, c, u) ==> rev@.contains_key(u),
                forall|u: u16| #[trigger]
                    rev@.contains_key(u) ==> (rev@[u] as u32) < i && is_first_code_for(
                        m,
                        rev@[u],
                        u,
                    ),
            decreases 0x10000 - i,
        {
            let code = i as u16;
            if let Some(v) = self.map.get(&code) {
                if v.len() == 1 {
                    let u = v[0];
                    assert(m.contains_key(code) && m[code] =~= seq![u]);
                    if !rev.contains_key(&u) {
                        assert forall|d: u16| #[trigger] maps_alone_to(m, d, u) implies code <= d by {
                            if d < code {
                                assert(rev@.contains_key(u));
                            }
                        }
                        rev.insert(u, code);
                    }
                } else {
                    assert forall|u: u16| !maps_alone_to(m, code, u) by {
                        if maps_alone_to(m, code, u) {
                            assert(m[code].len() == 1);
                        }
                    }
                }
            }
            i = i + 1;
        }
        assert forall|u: u16| #[trigger] rev@.contains_key(u) implies rev@[u] == best_reverse(
            m,
        )[u] by {
            let c = choose|c: u16| is_first_code_for(m, c, u);
            assert(is_first_code_for(m, rev@[u], u));
            assert(maps_alone_to(m, rev@[u], u));
        }
        assert(rev@ =~= best_reverse(m));
        rev
    }
}

/// The source code formed by bytes `2k` and `2k + 1` of `b`, big-endian.
pub open spec fn code_at(b: Seq<u8>, k: int) -> u16 {
    (b[2 * k] as int * 256 + b[2 * k + 1] as int) as u16
}

/// The code units that the first `n` byte pairs of `b` decode to under `m`.
pub open spec fn cmap_decode_pairs(m: Map<u16, Seq<u16>>, b: Seq<u8>, n: int) -> Seq<u16>
    decreases n,
{
    if n <= 0 {
        seq![]
    } else {
        cmap_decode_pairs(m, b, n - 1) + lookup_or_replacement(m, code_at(b, n - 1))
    }
}

/// The code units that `b` decodes to under `m`: each complete byte pair in
/// order, a trailing unpaired byte ignored.
pub open spec fn cmap_decode_units(m: Map<u16, Seq<u16>>, b: Seq<u8>) -> Seq<u16> {
    cmap_decode_pairs(m, b, b.len() as int / 2)
}

/// The bytes that code units `u` re-encode to through the reverse map `rev`:
/// each unit it holds becomes its source code, big-endian; others are dropped.
pub open spec fn cmap_encode_units(rev: Map<u16, u16>, u: Seq<u16>) -> Seq<u8>
    decreases u.len(),
{
    if u.len() == 0 {
        seq![]
    } else {
        let prev = cmap_encode_units(rev, u.drop_last());
        if rev.contains_key(u.last()) {
            prev + seq![(rev[u.last()] / 256) as u8, (rev[u.last()] % 256) as u8]
        } else {
            prev
        }
    }
}

proof fn lemma_decode_pairs_prefix(m: Map<u16, Seq<u16>>, b: Seq<u8>, c: Seq<u8>, n: int)
    requires
        0 <= n,
        2 * n <= b.len(),
        2 * n <= c.len(),
        forall|i: int| 0 <= i < 2 * n ==> b[i] == c[i],
    ensures
        cmap_decode_pairs(m, b, n) == cmap_decode_pairs(m, c, n),
    decreases n,
{
    if n > 0 {
        lemma_decode_pairs_prefix(m, b, c, n - 1);
        assert(code_at(b, n - 1) == code_at(c, n - 1));
    }
}

/// Decoding a byte string of odd length under a code map ignores exactly its
/// final byte: the result is that of the string without it, whose complete
/// pairs are all decoded.
pub proof fn lemma_odd_length_drops_last_byte(m: Map<u16, Seq<u16>>, b: Seq<u8>)
    requires
        b.len() % 2 == 1,
    ensures
        cmap_decode_units(m, b) == cmap_decode_units(m, b.drop_last()),
        b.drop_last().len() / 2 == b.len() / 2,
{
    lemma_decode_pairs_prefix(m, b, b.drop_last(), b.len() as int / 2);
}

/// Where source codes 0x0041 and 0x0042, and no other, both decode to the
/// single unit U+0041, the reverse map holds U+0041 with exactly one of the
/// two codes: the smaller, 0x0041. The reverse map is a function of the code
/// map alone, so every derivation from the same map agrees.
pub proof fn lemma_reverse_map_picks_one_code(m: Map<u16, Seq<u16>>)
    requires
        maps_alone_to(m, 0x41, 0x41),
        maps_alone_to(m, 0x42, 0x41),
        forall|c: u16| #[trigger] maps_alone_to(m, c, 0x41) ==> c == 0x41 || c == 0x42,
    ensures
        best_reverse(m).contains_key(0x41),
        best_reverse(m)[0x41] == 0x41,
        best_reverse(m)[0x41] != 0x42,
{
    assert(is_first_code_for(m, 0x41, 0x41));
    let c = choose|c: u16| is_first_code_for(m, c, 0x41);
    assert(maps_alone_to(m, c, 0x41));
}

} // verus!
