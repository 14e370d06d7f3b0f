//! Where code packages come from, where they are cached, and what loading
//! one takes.
use vstd::prelude::*;
use vstd::utf8::encode_utf8;
use crate::text::char_text;
use sha2::{Digest, Sha256};

verus! {

/// Where a package comes from.
#[derive(Debug, Clone, PartialEq, Eq)]
pub enum PackageSource {
    Git { url: String, branch: Option<String>, path: Option<String> },
    RemotePath { url: String },
    LocalPath { path: String },
    Registry { registry: String, package_name: String, version: String },
}

/// The SHA-256 digest of `data`, as `sha2::Sha256` computes it.
pub uninterp spec fn sha256_digest(data: Seq<u8>) -> Seq<u8>;

/// The SHA-256 digest of `data` (`sha2::Sha256::digest`): 32 bytes, a
/// function of the bytes alone.
#[verifier::external_body]
fn sha256(data: &Vec<u8>) -> (r: Vec<u8>)
    ensures
        r@ == sha256_digest(data@),
        r@.len() == 32,
{
    Sha256::digest(data.as_slice()).to_vec()
}

/// The lowercase hexadecimal digit of a value below 16.
pub open spec fn hex_digit(n: int) -> char {
    if n < 10 {
        ((n + 48) as u32) as char
    } else {
        ((n + 87) as u32) as char
    }
}

/// The lowercase hexadecimal form of bytes: two digits per byte, the high
/// one first.
pub open spec fn hex_of(bytes: Seq<u8>) -> Seq<char>
    decreases bytes.len(),
{
    if bytes.len() == 0 {
        Seq::empty()
    } else {
        hex_of(bytes.drop_last()) + seq![
            hex_digit(bytes.last() as int / 16),
            hex_digit(bytes.last() as int % 16),
        ]
    }
}

/// Whether `c` is a lowercase hexadecimal digit: `0`-`9` or `a`-`f`.
pub open spec fn is_lower_hex_digit(c: char) -> bool {
    (48 <= c as u32 <= 57) || (97 <= c as u32 <= 102)
}

/// The hexadecimal form has two lowercase digits per byte.
pub proof fn lemma_hex_of(bytes: Seq<u8>)
    ensures
        hex_of(bytes).len() == 2 * bytes.len(),
        forall|i: int| 0 <= i < hex_of(bytes).len() ==> is_lower_hex_digit(#[trigger] hex_of(bytes)[i]),
    decreases bytes.len(),
{
    if bytes.len() > 0 {
        lemma_hex_of(bytes.drop_last());
        let hi = bytes.last() as int / 16;
        let lo = bytes.last() as int % 16;
        assert(is_lower_hex_digit(hex_digit(hi)));
        assert(is_lower_hex_digit(hex_digit(lo)));
        let prev = hex_of(bytes.drop_last());
        assert forall|i: int| 0 <= i < hex_of(bytes).len() implies is_lower_hex_digit(
            #[trigger] hex_of(bytes)[i],
        ) by {
            if i < prev.len() {
                assert(hex_of(bytes)[i] == prev[i]);
            }
        }
    }
}

/// The digit for a value below 16.
fn hex_char(n: u8) -> (r: char)
    requires
        n < 16,
    ensures
        r == hex_digit(n as int),
{
    let chars = "0123456789abcdef";
    proof {
        reveal_strlit("0123456789abcdef");
    }
    let c = chars.get_char(n as usize);
    assert(c == hex_digit(n as int)) by {
        reveal_strlit("0123456789abcdef");
    }
    c
}

/// The lowercase hexadecimal form of `bytes`.
pub fn hex_lower(bytes: &Vec<u8>) -> (r: String)
    ensures
        r@ == hex_of(bytes@),
{
    let mut out = String::new();
    let mut i: usize = 0;
    while i < bytes.len()
        invariant
            i <= bytes@.len(),
            out@ == hex_of(bytes@.take(i as int)),
        decreases bytes@.len() - i,
    {
        let b = bytes[i];
        let hi = hex_char(b / 16);
        let lo = hex_char(b % 16);
        let ghost before = out@;
        let mut pair = String::new();
        pair.append(char_text(hi).as_str());
        pair.append(char_text(lo).as_str());
        out.append(pair.as_str());
        proof {
            assert(bytes@.take(i + 1).drop_last() =~= bytes@.take(i as int));
            assert(out@ =~= before + seq![hi, lo]);
        }
        i = i + 1;
    }
    assert(bytes@.take(bytes@.len() as int) =~= bytes@);
    out
}

/// The bytes that identify a package: the UTF-8 bytes of its fields, one
/// after the other (the optional ones when present).
pub open spec fn source_bytes(s: PackageSource) -> Seq<u8> {
    match s {
        PackageSource::Git { url, branch, path } => encode_utf8(url@) + (match branch {
            Some(b) => encode_utf8(b@),
            None => Seq::empty(),
        }) + (match path {
            Some(p) => encode_utf8(p@),
            None => Seq::empty(),
        }),
        PackageSource::RemotePath { url } => encode_utf8(url@),
        PackageSource::LocalPath { path } => encode_utf8(path@),
        PackageSource::Registry { registry, package_name, version } => encode_utf8(registry@)
            + encode_utf8(package_name@) + encode_utf8(version@),
    }
}

/// The cache key of a package: the hexadecimal SHA-256 digest of the bytes
/// that identify it.
pub open spec fn cache_key(s: PackageSource) -> Seq<char> {
    hex_of(sha256_digest(source_bytes(s)))
}

/// Two texts with the same UTF-8 bytes are the same text.
proof fn lemma_encode_utf8_injective(a: Seq<char>, b: Seq<char>)
    requires
        encode_utf8(a) == encode_utf8(b),
    ensures
        a == b,
{
    vstd::utf8::encode_utf8_decode_utf8(a);
    vstd::utf8::encode_utf8_decode_utf8(b);
}

/// The digit of a value below 16 tells the value.
proof fn lemma_hex_digit_injective(n: int, m: int)
    requires
        0 <= n < 16,
        0 <= m < 16,
        hex_digit(n) == hex_digit(m),
    ensures
        n == m,
{
    assert(hex_digit(n) as u32 == if n < 10 { n + 48 } else { n + 87 });
    assert(hex_digit(m) as u32 == if m < 10 { m + 48 } else { m + 87 });
}

/// Two byte strings with the same hexadecimal form are the same bytes.
pub proof fn lemma_hex_of_injective(a: Seq<u8>, b: Seq<u8>)
    requires
        hex_of(a) == hex_of(b),
    ensures
        a == b,
    decreases a.len(),
{
    lemma_hex_of(a);
    lemma_hex_of(b);
    if a.len() > 0 {
        let ha = hex_of(a.drop_last());
        let hb = hex_of(b.drop_last());
        lemma_hex_of(a.drop_last());
        lemma_hex_of(b.drop_last());
        let n = ha.len() as int;
        assert(hex_of(a).subrange(0, n) =~= ha);
        assert(hex_of(b).subrange(0, n) =~= hb);
        lemma_hex_of_injective(a.drop_last(), b.drop_last());
        assert(hex_of(a)[n] == hex_digit(a.last() as int / 16));
        assert(hex_of(b)[n] == hex_digit(b.last() as int / 16));
        assert(hex_of(a)[n + 1] == hex_digit(a.last() as int % 16));
        assert(hex_of(b)[n + 1] == hex_digit(b.last() as int % 16));
        lemma_hex_digit_injective(a.last() as int / 16, b.last() as int / 16);
        lemma_hex_digit_injective(a.last() as int % 16, b.last() as int % 16);
        assert(a.last() == b.last());
        assert(a =~= a.drop_last().push(a.last()));
        assert(b =~= b.drop_last().push(b.last()));
    }
}

/// Bytes that agree before and after a middle part agree in the middle part.
proof fn lemma_same_middle(a: Seq<u8>, b1: Seq<u8>, b2: Seq<u8>, c: Seq<u8>)
    requires
        a + b1 + c == a + b2 + c,
    ensures
        b1 == b2,
{
    let x = a + b1 + c;
    let y = a + b2 + c;
    assert(x.len() == y.len());
    assert(x.subrange(a.len() as int, (a.len() + b1.len()) as int) =~= b1);
    assert(y.subrange(a.len() as int, (a.len() + b2.len()) as int) =~= b2);
}

/// Texts that agree before and after a middle text, as UTF-8 bytes, agree
/// in the middle text.
proof fn lemma_same_middle_text(a: Seq<u8>, t1: Seq<char>, t2: Seq<char>, c: Seq<u8>)
    requires
        a + encode_utf8(t1) + c == a + encode_utf8(t2) + c,
    ensures
        t1 == t2,
{
    lemma_same_middle(a, encode_utf8(t1), encode_utf8(t2), c);
    lemma_encode_utf8_injective(t1, t2);
}

/// Sources of one kind that differ in a single field hash different bytes:
/// a Git source in its URL, its branch or its path (each given), a remote
/// or local source in its location, a registry source in its registry, its
/// package name or its version. So their cache keys differ unless SHA-256
/// itself collides on those bytes.
pub proof fn lemma_sources_hash_apart(s1: PackageSource, s2: PackageSource)
    requires
        match (s1, s2) {
            (
                PackageSource::Git { url: u1, branch: b1, path: p1 },
                PackageSource::Git { url: u2, branch: b2, path: p2 },
            ) => {
                ||| u1@ != u2@ && b1 == b2 && p1 == p2
                ||| u1 == u2 && b1 is Some && b2 is Some && b1->0@ != b2->0@ && p1 == p2
                ||| u1 == u2 && b1 == b2 && p1 is Some && p2 is Some && p1->0@ != p2->0@
            },
            (PackageSource::RemotePath { url: u1 }, PackageSource::RemotePath { url: u2 }) => u1@ != u2@,
            (PackageSource::LocalPath { path: u1 }, PackageSource::LocalPath { path: u2 }) => u1@ != u2@,
            (
                PackageSource::Registry { registry: r1, package_name: n1, version: v1 },
                PackageSource::Registry { registry: r2, package_name: n2, version: v2 },
            ) => {
                ||| r1@ != r2@ && n1 == n2 && v1 == v2
                ||| r1 == r2 && n1@ != n2@ && v1 == v2
                ||| r1 == r2 && n1 == n2 && v1@ != v2@
            },
            _ => false,
        },
    ensures
        source_bytes(s1) != source_bytes(s2),
        cache_key(s1) == cache_key(s2) ==> sha256_digest(source_bytes(s1)) == sha256_digest(source_bytes(s2)),
{
    let e = Seq::<u8>::empty();
    if source_bytes(s1) == source_bytes(s2) {
        match (s1, s2) {
            (
                PackageSource::Git { url: u1, branch: b1, path: p1 },
                PackageSource::Git { url: u2, branch: b2, path: p2 },
            ) => {
                let bb1 = match b1 { Some(b) => encode_utf8(b@), None => e };
                let bb2 = match b2 { Some(b) => encode_utf8(b@), None => e };
                let pp1 = match p1 { Some(p) => encode_utf8(p@), None => e };
                let pp2 = match p2 { Some(p) => encode_utf8(p@), None => e };
                if u1@ != u2@ && b1 == b2 && p1 == p2 {
                    assert(e + encode_utf8(u1@) + (bb1 + pp1) =~= source_bytes(s1));
                    assert(e + encode_utf8(u2@) + (bb1 + pp1) =~= source_bytes(s2));
                    lemma_same_middle_text(e, u1@, u2@, bb1 + pp1);
                } else if u1 == u2 && b1 == b2 {
                    let y1 = p1->0;
                    let y2 = p2->0;
                    assert(encode_utf8(u1@) + bb1 + encode_utf8(y1@) + e =~= source_bytes(s1));
                    assert(encode_utf8(u1@) + bb1 + encode_utf8(y2@) + e =~= source_bytes(s2));
                    lemma_same_middle_text(encode_utf8(u1@) + bb1, y1@, y2@, e);
                } else {
                    let x1 = b1->0;
                    let x2 = b2->0;
                    assert(encode_utf8(u1@) + encode_utf8(x1@) + pp1 =~= source_bytes(s1));
                    assert(encode_utf8(u1@) + encode_utf8(x2@) + pp1 =~= source_bytes(s2));
                    lemma_same_middle_text(encode_utf8(u1@), x1@, x2@, pp1);
                }
            },
            (PackageSource::RemotePath { url: u1 }, PackageSource::RemotePath { url: u2 }) => {
                lemma_encode_utf8_injective(u1@, u2@);
            },
            (PackageSource::LocalPath { path: u1 }, PackageSource::LocalPath { path: u2 }) => {
                lemma_encode_utf8_injective(u1@, u2@);
            },
            (
                PackageSource::Registry { registry: r1, package_name: n1, version: v1 },
                PackageSource::Registry { registry: r2, package_name: n2, version: v2 },
            ) => {
                if r1@ != r2@ && n1 == n2 && v1 == v2 {
                    let rest = encode_utf8(n1@) + encode_utf8(v1@);
                    assert(e + encode_utf8(r1@) + rest =~= source_bytes(s1));
                    assert(e + encode_utf8(r2@) + rest =~= source_bytes(s2));
                    lemma_same_middle_text(e, r1@, r2@, rest);
                } else if r1 == r2 && v1 == v2 {
                    lemma_same_middle_text(encode_utf8(r1@), n1@, n2@, encode_utf8(v1@));
                } else {
                    assert(encode_utf8(r1@) + encode_utf8(n1@) + encode_utf8(v1@) + e =~= source_bytes(s1));
                    assert(encode_utf8(r1@) + encode_utf8(n1@) + encode_utf8(v2@) + e =~= source_bytes(s2));
                    lemma_same_middle_text(encode_utf8(r1@) + encode_utf8(n1@), v1@, v2@, e);
                }
            },
            _ => {},
        }
    }
    if cache_key(s1) == cache_key(s2) {
        lemma_hex_of_injective(sha256_digest(source_bytes(s1)), sha256_digest(source_bytes(s2)));
    }
}

/// `part` appended to the path `base` with a separator, unless `base` is
/// empty or already ends in one.
pub open spec fn path_join(base: Seq<char>, part: Seq<char>) -> Seq<char> {
    if base.len() == 0 || base.last() == '/' {
        base + part
    } else {
        base + "/"@ + part
    }
}

/// `part` appended to the path `base`.
pub fn join_path(base: &str, part: &str) -> (r: String)
    ensures
        r@ == path_join(base@, part@),
{
    proof {
        reveal_strlit("/");
    }
    let n = base.unicode_len();
    let mut s = String::from_str(base);
    if n > 0 && base.get_char(n - 1) != '/' {
        s.append("/");
    }
    s.append(part);
    s
}

/// The UTF-8 bytes of `s` appended to `out`.
fn push_bytes(out: &mut Vec<u8>, s: &str)
    ensures
        final(out)@ == old(out)@ + encode_utf8(s@),
{
    let b = s.as_bytes();
    let mut i: usize = 0;
    let ghost start = out@;
    while i < b.len()
        invariant
            i <= b@.len(),
            b@ == encode_utf8(s@),
            out@ == start + b@.take(i as int),
        decreases b@.len() - i,
    {
        out.push(b[i]);
        assert(b@.take(i + 1) =~= b@.take(i as int).push(b@[i as int]));
        i = i + 1;
    }
    assert(b@.take(b@.len() as int) =~= b@);
}

/// Where packages are cached on disk.
#[derive(Debug, Clone)]
pub struct PackageCache {
    pub cache_dir: String,
}

impl PackageCache {
    /// The cache under the temporary directory `temp_dir`:
    /// `<temp_dir>/k8s-maestro/cache`.
    pub fn in_temp_dir(temp_dir: &str) -> (r: Self)
        ensures
            r.cache_dir@ == path_join(path_join(temp_dir@, "k8s-maestro"@), "cache"@),
    {
        let base = join_path(temp_dir, "k8s-maestro");
        PackageCache { cache_dir: join_path(base.as_str(), "cache") }
    }

    /// The cache key of `source`: the lowercase hex SHA-256 of its parts.
    ///
    /// A local path is hashed as given. The cache keys a local package by its
    /// canonical path (absolute, links followed), or by the path as given
    /// where it cannot be resolved; resolving reads the file system, so the
    /// caller resolves the path before it asks for the key.
    pub fn generate_cache_key(source: &PackageSource) -> (r: String)
        ensures
            r@ == cache_key(*source),
            r@.len() == 64,
            forall|i: int| 0 <= i < 64 ==> is_lower_hex_digit(#[trigger] r@[i]),
    {
        let mut bytes: Vec<u8> = Vec::new();
        match source {
            PackageSource::Git { url, branch, path } => {
                push_bytes(&mut bytes, url.as_str());
                match branch {
                    Some(b) => push_bytes(&mut bytes, b.as_str()),
                    None => {},
                }
                match path {
                    Some(p) => push_bytes(&mut bytes, p.as_str()),
                    None => {},
                }
                assert(bytes@ =~= source_bytes(*source));
            },
            PackageSource::RemotePath { url } => {
                push_bytes(&mut bytes, url.as_str());
                assert(bytes@ =~= source_bytes(*source));
            },
            PackageSource::LocalPath { path } => {
                push_bytes(&mut bytes, path.as_str());
                assert(bytes@ =~= source_bytes(*source));
            },
            PackageSource::Registry { registry, package_name, version } => {
                push_bytes(&mut bytes, registry.as_str());
                push_bytes(&mut bytes, package_name.as_str());
                push_bytes(&mut bytes, version.as_str());
                assert(bytes@ =~= source_bytes(*source));
            },
        }
        let digest = sha256(&bytes);
        proof {
            lemma_hex_of(digest@);
        }
        hex_lower(&digest)
    }

    /// Where `source` is cached: its key under the cache directory. A local
    /// path is expected resolved already, as for `generate_cache_key`.
    pub fn get_cache_path(&self, source: &PackageSource) -> (r: String)
        ensures
            r@ == path_join(self.cache_dir@, cache_key(*source)),
            cache_key(*source).len() == 64,
            forall|i: int| 0 <= i < 64 ==> is_lower_hex_digit(#[trigger] cache_key(*source)[i]),
    {
        let key = Self::generate_cache_key(source);
        join_path(self.cache_dir.as_str(), key.as_str())
    }
}

/// What loading a package takes.
#[derive(Debug, Clone, PartialEq, Eq)]
pub enum LoadPlan {
    /// The package is in the cache at this path.
    UseCache(String),
    /// Clone the repository into the directory, then check out the branch.
    FetchGit { url: String, branch: Option<String>, dir: String },
    /// Download the file to the path.
    FetchRemote { url: String, file: String },
    /// Check that the local path exists.
    ValidateLocal(String),
}

/// Loads packages into a cache.
#[derive(Debug, Clone)]
pub struct PackageLoader {
    pub cache: PackageCache,
}

impl PackageLoader {
    pub fn with_cache(cache: PackageCache) -> (r: Self)
        ensures
            r.cache == cache,
    {
        PackageLoader { cache }
    }

    /// What loading `source` takes, given whether its cache path exists: the
    /// cached copy when there is one; otherwise a clone, a download or a
    /// check of the local path. Registries are not supported.
    pub fn plan_load(&self, source: &PackageSource, cached: bool) -> (r: Result<LoadPlan, String>)
        ensures
            cached ==> (r matches Ok(LoadPlan::UseCache(p)) && p@ == path_join(
                self.cache.cache_dir@,
                cache_key(*source),
            )),
            !cached ==> match *source {
                PackageSource::Git { url, branch, path: _ } => r matches Ok(
                    LoadPlan::FetchGit { url: u, branch: b, dir },
                ) && u@ == url@ && b == branch && dir@ == path_join(
                    self.cache.cache_dir@,
                    cache_key(*source),
                ),
                PackageSource::RemotePath { url } => r matches Ok(LoadPlan::FetchRemote { url: u, file })
                    && u@ == url@ && file@ == path_join(self.cache.cache_dir@, cache_key(*source)),
                PackageSource::LocalPath { path } => r matches Ok(LoadPlan::ValidateLocal(p)) && p@
                    == path@,
                PackageSource::Registry { .. } => r matches Err(e) && e@
                    == "Registry support not yet implemented"@,
            },
    {
        let cache_path = self.cache.get_cache_path(source);
        if cached {
            return Ok(LoadPlan::UseCache(cache_path));
        }
        match source {
            PackageSource::Git { url, branch, path: _ } => Ok(
                LoadPlan::FetchGit { url: url.clone(), branch: branch.clone(), dir: cache_path },
            ),
            PackageSource::RemotePath { url } => Ok(
                LoadPlan::FetchRemote { url: url.clone(), file: cache_path },
            ),
            PackageSource::LocalPath { path } => Ok(LoadPlan::ValidateLocal(path.clone())),
            PackageSource::Registry { .. } => Err(
                String::from_str("Registry support not yet implemented"),
            ),
        }
    }
}

} // verus!
