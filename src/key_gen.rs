//! Keys of the response cache: readable when every component is plain,
//! a digest otherwise.
use vstd::prelude::*;
use vstd::string::StringSliceAdditionalSpecFns;

verus! {

/// The SHA-256 digest of a byte string.
pub uninterp spec fn sha256_of(data: Seq<u8>) -> Seq<u8>;

/// Relies on sha2::Sha256::digest: the 32-byte SHA-256 digest of the bytes.
#[verifier::external_body]
fn sha256(data: &Vec<u8>) -> (r: Vec<u8>)
    ensures
        r@ == sha256_of(data@),
        r@.len() == 32,
{
    <sha2::Sha256 as sha2::Digest>::digest(data.as_slice()).to_vec()
}

pub open spec fn is_key_char(c: char) -> bool {
    ('a' <= c && c <= 'z') || ('A' <= c && c <= 'Z') || ('0' <= c && c <= '9') || c == '-' || c == '_'
}

/// A component that can stand in a key as it is: 1 to 64 characters, each
/// an ASCII letter or digit, `-` or `_`.
pub open spec fn safe_component(s: Seq<char>) -> bool {
    0 < s.len() <= 64 && forall|i: int| 0 <= i < s.len() ==> is_key_char(#[trigger] s[i])
}

pub fn is_safe_key_component(s: &str) -> (r: bool)
    ensures
        r == safe_component(s@),
{
    let n = s.unicode_len();
    if n == 0 || n > 64 {
        return false;
    }
    let mut i: usize = 0;
    while i < n
        invariant
            i <= n,
            n == s@.len(),
            forall|k: int| 0 <= k < i ==> is_key_char(#[trigger] s@[k]),
        decreases n - i,
    {
        let c = s.get_char(i);
        if !(('a' <= c && c <= 'z') || ('A' <= c && c <= 'Z') || ('0' <= c && c <= '9') || c == '-' || c == '_') {
            return false;
        }
        i = i + 1;
    }
    true
}

pub open spec fn hex_char(d: int) -> char {
    if d < 10 {
        ('0' as u8 + d) as char
    } else {
        ('a' as u8 + (d - 10)) as char
    }
}

/// Two lower-case hexadecimal digits per byte.
pub open spec fn hex_of(bytes: Seq<u8>) -> Seq<char>
    decreases bytes.len(),
{
    if bytes.len() == 0 {
        seq![]
    } else {
        hex_of(bytes.drop_last()) + seq![hex_char(bytes.last() as int / 16), hex_char(bytes.last() as int % 16)]
    }
}

fn hex_digit(d: u8) -> (r: &'static str)
    requires
        d < 16,
    ensures
        r@ == seq![hex_char(d as int)],
{
    proof {
        reveal_strlit("0");
        reveal_strlit("1");
        reveal_strlit("2");
        reveal_strlit("3");
        reveal_strlit("4");
        reveal_strlit("5");
        reveal_strlit("6");
        reveal_strlit("7");
        reveal_strlit("8");
        reveal_strlit("9");
        reveal_strlit("a");
        reveal_strlit("b");
        reveal_strlit("c");
        reveal_strlit("d");
        reveal_strlit("e");
        reveal_strlit("f");
    }
    if d == 0 {
        "0"
    } else if d == 1 {
        "1"
    } else if d == 2 {
        "2"
    } else if d == 3 {
        "3"
    } else if d == 4 {
        "4"
    } else if d == 5 {
        "5"
    } else if d == 6 {
        "6"
    } else if d == 7 {
        "7"
    } else if d == 8 {
        "8"
    } else if d == 9 {
        "9"
    } else if d == 10 {
        "a"
    } else if d == 11 {
        "b"
    } else if d == 12 {
        "c"
    } else if d == 13 {
        "d"
    } else if d == 14 {
        "e"
    } else {
        "f"
    }
}

/// The bytes in lower-case hexadecimal.
pub fn hex_string(bytes: &[u8]) -> (r: String)
    ensures
        r@ == hex_of(bytes@),
{
    let mut s = String::new();
    let mut i: usize = 0;
    while i < bytes.len()
        invariant
            i <= bytes@.len(),
            s@ == hex_of(bytes@.subrange(0, i as int)),
        decreases bytes.len() - i,
    {
        let b = bytes[i];
        assert(bytes@.subrange(0, i + 1).drop_last() == bytes@.subrange(0, i as int));
        s.append(hex_digit(b / 16));
        s.append(hex_digit(b % 16));
        i = i + 1;
    }
    assert(bytes@.subrange(0, bytes@.len() as int) == bytes@);
    s
}

/// The first `n` components joined with `_`.
pub open spec fn join_underscore(parts: Seq<Seq<char>>, n: int) -> Seq<char>
    decreases n,
{
    if n <= 0 {
        seq![]
    } else if n == 1 {
        parts[0]
    } else {
        join_underscore(parts, n - 1) + "_"@ + parts[n - 1]
    }
}

/// The bytes of the first `n` components, each followed by a zero byte.
pub open spec fn digest_input(parts: Seq<Seq<u8>>, n: int) -> Seq<u8>
    decreases n,
{
    if n <= 0 {
        seq![]
    } else {
        digest_input(parts, n - 1) + parts[n - 1] + seq![0u8]
    }
}

pub open spec fn views_of(cs: Seq<&str>) -> Seq<Seq<char>> {
    cs.map_values(|c: &str| c@)
}

pub open spec fn bytes_of(cs: Seq<&str>) -> Seq<Seq<u8>> {
    cs.map_values(|c: &str| c.spec_bytes())
}

/// The key of a list of components: joined with `_` when all are safe,
/// else the first 8 bytes of the digest of their bytes, in hexadecimal.
pub open spec fn cache_key_of(cs: Seq<&str>) -> Seq<char> {
    if forall|i: int| 0 <= i < cs.len() ==> safe_component(#[trigger] cs[i]@) {
        join_underscore(views_of(cs), cs.len() as int)
    } else {
        hex_of(sha256_of(digest_input(bytes_of(cs), cs.len() as int)).subrange(0, 8))
    }
}

pub fn generate_cache_key(components: &[&str]) -> (r: String)
    ensures
        r@ == cache_key_of(components@),
{
    let mut all_safe = true;
    let mut i: usize = 0;
    while i < components.len()
        invariant
            i <= components@.len(),
            all_safe == forall|k: int| 0 <= k < i ==> safe_component(#[trigger] components@[k]@),
        decreases components.len() - i,
    {
        if !is_safe_key_component(components[i]) {
            all_safe = false;
        }
        i = i + 1;
    }
    if all_safe {
        let ghost vs = views_of(components@);
        let mut key = String::new();
        let mut j: usize = 0;
        while j < components.len()
            invariant
                j <= components@.len(),
                vs == views_of(components@),
                key@ == join_underscore(vs, j as int),
            decreases components.len() - j,
        {
            if j > 0 {
                key.append("_");
            }
            key.append(components[j]);
            proof {
                if j == 0 {
                    assert(key@ =~= vs[0]);
                }
            }
            j = j + 1;
        }
        key
    } else {
        let ghost bs = bytes_of(components@);
        let mut data: Vec<u8> = Vec::new();
        let mut j: usize = 0;
        while j < components.len()
            invariant
                j <= components@.len(),
                bs == bytes_of(components@),
                data@ == digest_input(bs, j as int),
            decreases components.len() - j,
        {
            let b = components[j].as_bytes();
            let ghost before = data@;
            let mut k: usize = 0;
            while k < b.len()
                invariant
                    k <= b@.len(),
                    data@ == before + b@.subrange(0, k as int),
                decreases b.len() - k,
            {
                data.push(b[k]);
                assert(b@.subrange(0, k + 1) == b@.subrange(0, k as int).push(b@[k as int]));
                k = k + 1;
            }
            assert(b@.subrange(0, b@.len() as int) == b@);
            data.push(0u8);
            j = j + 1;
        }
        let digest = sha256(&data);
        hex_string(&digest.as_slice()[0..8])
    }
}

/// Builds a cache key from components in order.
pub struct CacheKeyBuilder {
    pub components: Vec<String>,
}

pub open spec fn strings_of(v: Seq<String>) -> Seq<Seq<char>> {
    v.map_values(|s: String| s@)
}

impl CacheKeyBuilder {
    pub fn new() -> (r: CacheKeyBuilder)
        ensures
            r.components@.len() == 0,
    {
        CacheKeyBuilder { components: Vec::new() }
    }

    pub fn add(self, component: &str) -> (r: CacheKeyBuilder)
        ensures
            strings_of(r.components@) == strings_of(self.components@).push(component@),
    {
        let mut components = self.components;
        let ghost before = strings_of(components@);
        components.push(String::from_str(component));
        assert(strings_of(components@) =~= before.push(component@));
        CacheKeyBuilder { components }
    }

    pub fn add_opt(self, component: Option<&str>) -> (r: CacheKeyBuilder)
        ensures
            strings_of(r.components@) == match component {
                Some(c) => strings_of(self.components@).push(c@),
                None => strings_of(self.components@),
            },
    {
        match component {
            Some(c) => self.add(c),
            None => self,
        }
    }

    pub fn with_namespace(self, namespace: &str) -> (r: CacheKeyBuilder)
        ensures
            strings_of(r.components@) == seq![namespace@] + strings_of(self.components@),
    {
        let mut components = self.components;
        let ghost before = strings_of(components@);
        components.insert(0, String::from_str(namespace));
        assert(strings_of(components@) =~= seq![namespace@] + before);
        CacheKeyBuilder { components }
    }

    /// The key of the components gathered so far.
    pub fn build(self) -> (r: String)
        ensures
            exists|refs: Seq<&str>| views_of(refs) == strings_of(self.components@) && #[trigger] cache_key_of(refs) == r@,
    {
        let mut refs: Vec<&str> = Vec::new();
        let mut i: usize = 0;
        while i < self.components.len()
            invariant
                i <= self.components@.len(),
                refs@.len() == i,
                forall|k: int| 0 <= k < i ==> #[trigger] refs@[k]@ == self.components@[k]@,
            decreases self.components.len() - i,
        {
            refs.push(self.components[i].as_str());
            i = i + 1;
        }
        assert(views_of(refs@) =~= strings_of(self.components@));
        let key = generate_cache_key(refs.as_slice());
        key
    }
}

} // verus!
