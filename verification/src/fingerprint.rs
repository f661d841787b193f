//! The build fingerprint: a fully resolved specification is canonically
//! encoded into bytes — stable field order, length-prefixed strings, one
//! canonical form for an absent digest set — and hashed. The encoding is
//! proved injective up to the resolved content, so fingerprint comparisons
//! decide rebuilds soundly.

use vstd::prelude::*;
use vstd::utf8::{encode_utf8, encode_utf8_decode_utf8};
use vstd::string::StringSliceAdditionalSpecFns;
use crate::api::{Checksum, File};
use crate::digest::{sha256_of, sha256_bytes};
use crate::resolver::ResolvedVersion;
use crate::strutil::{hex_rep, to_hex};

verus! {

/// A fully resolved specification: every alias expanded, every reference
/// concrete. This is what the fingerprint covers, and all a build fetches.
#[derive(Debug)]
pub struct ResolvedSpec {
    pub server: ResolvedVersion,
    pub mods: Vec<File>,
    pub datapacks: Vec<File>,
}

/// One more than the largest length a length prefix can carry.
pub open spec fn len_limit() -> int {
    0x1_0000_0000_0000_0000
}

/// A length as eight big-endian bytes.
pub open spec fn len8(n: u64) -> Seq<u8> {
    seq![
        ((n >> 56) & 0xff) as u8,
        ((n >> 48) & 0xff) as u8,
        ((n >> 40) & 0xff) as u8,
        ((n >> 32) & 0xff) as u8,
        ((n >> 24) & 0xff) as u8,
        ((n >> 16) & 0xff) as u8,
        ((n >> 8) & 0xff) as u8,
        (n & 0xff) as u8,
    ]
}

/// The length eight big-endian bytes carry.
pub open spec fn un_len8(b: Seq<u8>) -> u64
    recommends
        b.len() == 8,
{
    (((b[0] as u64) << 56) | ((b[1] as u64) << 48) | ((b[2] as u64) << 40) | ((b[3] as u64) << 32)
        | ((b[4] as u64) << 24) | ((b[5] as u64) << 16) | ((b[6] as u64) << 8) | (b[7] as u64))
}

proof fn lemma_len8_roundtrip(n: u64)
    ensures
        len8(n).len() == 8,
        un_len8(len8(n)) == n,
{
    assert(((((n >> 56) & 0xff) as u8 as u64) << 56 | (((n >> 48) & 0xff) as u8 as u64) << 48 | ((
    (n >> 40) & 0xff) as u8 as u64) << 40 | (((n >> 32) & 0xff) as u8 as u64) << 32 | (((n >> 24)
        & 0xff) as u8 as u64) << 24 | (((n >> 16) & 0xff) as u8 as u64) << 16 | (((n >> 8)
        & 0xff) as u8 as u64) << 8 | ((n & 0xff) as u8 as u64)) == n) by (bit_vector);
}

/// Two equal concatenations split equally once the first parts have one
/// length.
proof fn lemma_concat_split(a: Seq<u8>, b: Seq<u8>, c: Seq<u8>, d: Seq<u8>)
    requires
        a.len() == c.len(),
        a + b == c + d,
    ensures
        a == c,
        b == d,
{
    assert((a + b).len() == a.len() + b.len());
    assert((c + d).len() == c.len() + d.len());
    assert(a =~= c) by {
        assert forall|i: int| 0 <= i < a.len() implies a[i] == c[i] by {
            assert((a + b)[i] == a[i]);
            assert((c + d)[i] == c[i]);
        }
    }
    assert(b.len() == d.len());
    assert(b =~= d) by {
        assert forall|i: int| 0 <= i < b.len() implies b[i] == d[i] by {
            assert((a + b)[a.len() + i] == b[i]);
            assert((c + d)[c.len() + i] == d[i]);
        }
    }
}

/// A length prefix pins the length: equal streams starting with two length
/// prefixes carry the same length and the same remainder.
proof fn lemma_len8_prefix(m: u64, n: u64, x: Seq<u8>, y: Seq<u8>)
    requires
        len8(m) + x == len8(n) + y,
    ensures
        m == n,
        x == y,
{
    lemma_len8_roundtrip(m);
    lemma_len8_roundtrip(n);
    lemma_concat_split(len8(m), x, len8(n), y);
}

/// A string as bytes: its UTF-8 length, then its UTF-8 bytes.
pub open spec fn enc_str(s: Seq<char>) -> Seq<u8> {
    len8(encode_utf8(s).len() as u64) + encode_utf8(s)
}

/// Whether a string's UTF-8 form fits a length prefix.
pub open spec fn str_bounded(s: Seq<char>) -> bool {
    encode_utf8(s).len() < len_limit()
}

/// A string encoding is prefix-free: equal streams starting with two string
/// encodings carry the same string and the same remainder.
proof fn lemma_enc_str_prefix(a: Seq<char>, b: Seq<char>, x: Seq<u8>, y: Seq<u8>)
    requires
        str_bounded(a),
        str_bounded(b),
        enc_str(a) + x == enc_str(b) + y,
    ensures
        a == b,
        x == y,
{
    let ua = encode_utf8(a);
    let ub = encode_utf8(b);
    assert((len8(ua.len() as u64) + ua) + x =~= len8(ua.len() as u64) + (ua + x));
    assert((len8(ub.len() as u64) + ub) + y =~= len8(ub.len() as u64) + (ub + y));
    lemma_len8_prefix(ua.len() as u64, ub.len() as u64, ua + x, ub + y);
    lemma_concat_split(ua, x, ub, y);
    encode_utf8_decode_utf8(a);
    encode_utf8_decode_utf8(b);
}

/// An optional string as bytes: a tag byte, then the string if present.
pub open spec fn enc_opt_str(o: Option<Seq<char>>) -> Seq<u8> {
    match o {
        None => seq![0u8],
        Some(s) => seq![1u8] + enc_str(s),
    }
}

/// Whether an optional string fits a length prefix.
pub open spec fn opt_str_bounded(o: Option<Seq<char>>) -> bool {
    match o {
        None => true,
        Some(s) => str_bounded(s),
    }
}

/// An optional-string encoding is prefix-free.
proof fn lemma_enc_opt_str_prefix(a: Option<Seq<char>>, b: Option<Seq<char>>, x: Seq<u8>, y: Seq<
    u8,
>)
    requires
        opt_str_bounded(a),
        opt_str_bounded(b),
        enc_opt_str(a) + x == enc_opt_str(b) + y,
    ensures
        a == b,
        x == y,
{
    assert((enc_opt_str(a) + x)[0] == (enc_opt_str(b) + y)[0]);
    match (a, b) {
        (None, None) => {
            lemma_concat_split(seq![0u8], x, seq![0u8], y);
        },
        (Some(sa), Some(sb)) => {
            assert((seq![1u8] + enc_str(sa)) + x =~= seq![1u8] + (enc_str(sa) + x));
            assert((seq![1u8] + enc_str(sb)) + y =~= seq![1u8] + (enc_str(sb) + y));
            lemma_concat_split(seq![1u8], enc_str(sa) + x, seq![1u8], enc_str(sb) + y);
            lemma_enc_str_prefix(sa, sb, x, y);
        },
        (None, Some(sb)) => {
            assert((enc_opt_str(a) + x)[0] == 0u8);
            assert((enc_opt_str(b) + y)[0] == 1u8);
        },
        (Some(sa), None) => {
            assert((enc_opt_str(a) + x)[0] == 1u8);
            assert((enc_opt_str(b) + y)[0] == 0u8);
        },
    }
}

/// The md5 of a digest set, flattened: an absent set has no digests.
pub open spec fn slot_md5(c: Option<Checksum>) -> Option<Seq<char>> {
    match c {
        None => None,
        Some(cc) => match cc.md5 {
            None => None,
            Some(s) => Some(s@),
        },
    }
}

/// The sha1 of a digest set, flattened.
pub open spec fn slot_sha1(c: Option<Checksum>) -> Option<Seq<char>> {
    match c {
        None => None,
        Some(cc) => match cc.sha1 {
            None => None,
            Some(s) => Some(s@),
        },
    }
}

/// The sha256 of a digest set, flattened.
pub open spec fn slot_sha256(c: Option<Checksum>) -> Option<Seq<char>> {
    match c {
        None => None,
        Some(cc) => match cc.sha256 {
            None => None,
            Some(s) => Some(s@),
        },
    }
}

/// A digest set as bytes, in fixed md5, sha1, sha256 order. An absent set
/// and an empty set canonicalize identically: both carry no digests.
pub open spec fn enc_digest_set(c: Option<Checksum>) -> Seq<u8> {
    enc_opt_str(slot_md5(c)) + (enc_opt_str(slot_sha1(c)) + enc_opt_str(slot_sha256(c)))
}

/// Whether every digest of a set fits a length prefix.
pub open spec fn checksum_bounded(c: Option<Checksum>) -> bool {
    opt_str_bounded(slot_md5(c)) && opt_str_bounded(slot_sha1(c)) && opt_str_bounded(
        slot_sha256(c),
    )
}

/// A digest-set encoding is prefix-free and pins the three digest slots.
proof fn lemma_enc_digest_set_prefix(a: Option<Checksum>, b: Option<Checksum>, x: Seq<u8>, y: Seq<
    u8,
>)
    requires
        checksum_bounded(a),
        checksum_bounded(b),
        enc_digest_set(a) + x == enc_digest_set(b) + y,
    ensures
        slot_md5(a) == slot_md5(b),
        slot_sha1(a) == slot_sha1(b),
        slot_sha256(a) == slot_sha256(b),
        x == y,
{
    let m_a = enc_opt_str(slot_md5(a));
    let s1_a = enc_opt_str(slot_sha1(a));
    let s2_a = enc_opt_str(slot_sha256(a));
    let m_b = enc_opt_str(slot_md5(b));
    let s1_b = enc_opt_str(slot_sha1(b));
    let s2_b = enc_opt_str(slot_sha256(b));
    assert((m_a + (s1_a + s2_a)) + x =~= m_a + ((s1_a + (s2_a + x))));
    assert((m_b + (s1_b + s2_b)) + y =~= m_b + ((s1_b + (s2_b + y))));
    lemma_enc_opt_str_prefix(slot_md5(a), slot_md5(b), s1_a + (s2_a + x), s1_b + (s2_b + y));
    lemma_enc_opt_str_prefix(slot_sha1(a), slot_sha1(b), s2_a + x, s2_b + y);
    lemma_enc_opt_str_prefix(slot_sha256(a), slot_sha256(b), x, y);
}

/// What identifies an artifact to the fingerprint: its URL and its three
/// digest slots.
pub open spec fn file_key(f: File) -> (Seq<char>, Option<Seq<char>>, Option<Seq<char>>, Option<
    Seq<char>,
>) {
    (f.url@, slot_md5(f.checksum), slot_sha1(f.checksum), slot_sha256(f.checksum))
}

/// An artifact as bytes: its URL, then its digest set.
pub open spec fn enc_file(f: File) -> Seq<u8> {
    enc_str(f.url@) + enc_digest_set(f.checksum)
}

/// Whether an artifact's strings fit their length prefixes.
pub open spec fn file_bounded(f: File) -> bool {
    str_bounded(f.url@) && checksum_bounded(f.checksum)
}

/// An artifact encoding is prefix-free and pins the artifact's key.
proof fn lemma_enc_file_prefix(a: File, b: File, x: Seq<u8>, y: Seq<u8>)
    requires
        file_bounded(a),
        file_bounded(b),
        enc_file(a) + x == enc_file(b) + y,
    ensures
        file_key(a) == file_key(b),
        x == y,
{
    assert((enc_str(a.url@) + enc_digest_set(a.checksum)) + x =~= enc_str(a.url@) + (enc_digest_set(
        a.checksum,
    ) + x));
    assert((enc_str(b.url@) + enc_digest_set(b.checksum)) + y =~= enc_str(b.url@) + (enc_digest_set(
        b.checksum,
    ) + y));
    lemma_enc_str_prefix(a.url@, b.url@, enc_digest_set(a.checksum) + x, enc_digest_set(b.checksum) + y);
    lemma_enc_digest_set_prefix(a.checksum, b.checksum, x, y);
}

/// An artifact list as bytes, first to last.
pub open spec fn enc_files(fs: Seq<File>) -> Seq<u8>
    decreases fs.len(),
{
    if fs.len() == 0 {
        Seq::<u8>::empty()
    } else {
        enc_file(fs[0]) + enc_files(fs.drop_first())
    }
}

/// Whether every artifact of a list fits its length prefixes.
pub open spec fn files_bounded(fs: Seq<File>) -> bool {
    forall|i: int| 0 <= i < fs.len() ==> #[trigger] file_bounded(fs[i])
}

/// The keys of an artifact list, in order.
pub open spec fn files_keys(fs: Seq<File>) -> Seq<
    (Seq<char>, Option<Seq<char>>, Option<Seq<char>>, Option<Seq<char>>),
> {
    fs.map_values(|f: File| file_key(f))
}

/// Appending one artifact extends the list encoding at the end.
#[verifier::rlimit(50)]
proof fn lemma_enc_files_push(fs: Seq<File>, f: File)
    ensures
        enc_files(fs.push(f)) == enc_files(fs) + enc_file(f),
    decreases fs.len(),
{
    let p = fs.push(f);
    if fs.len() == 0 {
        assert(p[0] == f);
        assert(p.drop_first() =~= Seq::<File>::empty());
        assert(enc_files(p) == enc_file(f) + enc_files(Seq::<File>::empty()));
        assert(enc_file(f) + Seq::<u8>::empty() =~= enc_file(f));
        assert(enc_files(fs) + enc_file(f) =~= enc_file(f));
    } else {
        assert(p[0] == fs[0]);
        assert(p.drop_first() =~= fs.drop_first().push(f));
        lemma_enc_files_push(fs.drop_first(), f);
        assert(enc_files(p) == enc_file(fs[0]) + (enc_files(fs.drop_first()) + enc_file(f)));
        assert(enc_file(fs[0]) + (enc_files(fs.drop_first()) + enc_file(f)) =~= (enc_file(fs[0])
            + enc_files(fs.drop_first())) + enc_file(f));
    }
}

/// Two equally long artifact lists with equal encodings have equal keys, and
/// equal remainders follow.
#[verifier::rlimit(50)]
proof fn lemma_enc_files_prefix(a: Seq<File>, b: Seq<File>, x: Seq<u8>, y: Seq<u8>)
    requires
        files_bounded(a),
        files_bounded(b),
        a.len() == b.len(),
        enc_files(a) + x == enc_files(b) + y,
    ensures
        files_keys(a) == files_keys(b),
        x == y,
    decreases a.len(),
{
    if a.len() == 0 {
        assert(enc_files(a) + x =~= x);
        assert(enc_files(b) + y =~= y);
        assert(files_keys(a) =~= files_keys(b));
    } else {
        let ra = a.drop_first();
        let rb = b.drop_first();
        assert((enc_file(a[0]) + enc_files(ra)) + x =~= enc_file(a[0]) + (enc_files(ra) + x));
        assert((enc_file(b[0]) + enc_files(rb)) + y =~= enc_file(b[0]) + (enc_files(rb) + y));
        lemma_enc_file_prefix(a[0], b[0], enc_files(ra) + x, enc_files(rb) + y);
        assert(files_bounded(ra)) by {
            assert(forall|i: int| 0 <= i < ra.len() ==> ra[i] == a[i + 1]);
        }
        assert(files_bounded(rb)) by {
            assert(forall|i: int| 0 <= i < rb.len() ==> rb[i] == b[i + 1]);
        }
        lemma_enc_files_prefix(ra, rb, x, y);
        assert(files_keys(a) =~= files_keys(b)) by {
            assert forall|i: int| 0 <= i < a.len() implies files_keys(a)[i] == files_keys(b)[i] by {
                assert(files_keys(a)[i] == file_key(a[i]));
                assert(files_keys(b)[i] == file_key(b[i]));
                if i > 0 {
                    assert(a[i] == ra[i - 1]);
                    assert(b[i] == rb[i - 1]);
                    assert(files_keys(ra)[i - 1] == file_key(ra[i - 1]));
                    assert(files_keys(rb)[i - 1] == file_key(rb[i - 1]));
                }
            }
        }
    }
}

/// What identifies a resolved server version to the fingerprint.
pub open spec fn version_key(v: ResolvedVersion) -> (
    (Seq<char>, Option<Seq<char>>, Option<Seq<char>>, Option<Seq<char>>),
    u64,
) {
    ((v.url@, slot_md5(v.checksum), slot_sha1(v.checksum), slot_sha256(v.checksum)), v.java_major)
}

/// A resolved server version as bytes: URL, digest set, Java major version.
pub open spec fn enc_version(v: ResolvedVersion) -> Seq<u8> {
    enc_str(v.url@) + (enc_digest_set(v.checksum) + len8(v.java_major))
}

/// Whether a resolved version's strings fit their length prefixes.
pub open spec fn version_bounded(v: ResolvedVersion) -> bool {
    str_bounded(v.url@) && checksum_bounded(v.checksum)
}

/// A version encoding is prefix-free and pins the version's key.
proof fn lemma_enc_version_prefix(a: ResolvedVersion, b: ResolvedVersion, x: Seq<u8>, y: Seq<u8>)
    requires
        version_bounded(a),
        version_bounded(b),
        enc_version(a) + x == enc_version(b) + y,
    ensures
        version_key(a) == version_key(b),
        x == y,
{
    assert((enc_str(a.url@) + (enc_digest_set(a.checksum) + len8(a.java_major))) + x =~= enc_str(
        a.url@,
    ) + (enc_digest_set(a.checksum) + (len8(a.java_major) + x)));
    assert((enc_str(b.url@) + (enc_digest_set(b.checksum) + len8(b.java_major))) + y =~= enc_str(
        b.url@,
    ) + (enc_digest_set(b.checksum) + (len8(b.java_major) + y)));
    lemma_enc_str_prefix(
        a.url@,
        b.url@,
        enc_digest_set(a.checksum) + (len8(a.java_major) + x),
        enc_digest_set(b.checksum) + (len8(b.java_major) + y),
    );
    lemma_enc_digest_set_prefix(a.checksum, b.checksum, len8(a.java_major) + x, len8(b.java_major) + y);
    lemma_len8_prefix(a.java_major, b.java_major, x, y);
}

/// What identifies a resolved specification: the server version's key and
/// the ordered keys of the mod and datapack artifacts.
pub open spec fn resolved_key(r: ResolvedSpec) -> (
    ((Seq<char>, Option<Seq<char>>, Option<Seq<char>>, Option<Seq<char>>), u64),
    Seq<(Seq<char>, Option<Seq<char>>, Option<Seq<char>>, Option<Seq<char>>)>,
    Seq<(Seq<char>, Option<Seq<char>>, Option<Seq<char>>, Option<Seq<char>>)>,
) {
    (version_key(r.server), files_keys(r.mods@), files_keys(r.datapacks@))
}

/// A resolved specification as bytes: the server version, then the counted
/// mod list, then the counted datapack list.
pub open spec fn enc_resolved(r: ResolvedSpec) -> Seq<u8> {
    enc_version(r.server) + (len8(r.mods@.len() as u64) + (enc_files(r.mods@) + (len8(
        r.datapacks@.len() as u64,
    ) + enc_files(r.datapacks@))))
}

/// Whether every string of a resolved specification fits its length prefix
/// and the lists fit their counters. Every value built from machine strings
/// and vectors does.
pub open spec fn resolved_bounded(r: ResolvedSpec) -> bool {
    &&& version_bounded(r.server)
    &&& files_bounded(r.mods@)
    &&& files_bounded(r.datapacks@)
    &&& r.mods@.len() < len_limit()
    &&& r.datapacks@.len() < len_limit()
}

/// The canonical encoding is injective up to the resolved content: equal
/// encodings mean the same server URL, digests and Java version, and the
/// same artifact keys in the same order. In the contrapositive: any change
/// to a resolved URL or digest, and any reordering of the mod or datapack
/// lists, changes the canonical encoding.
pub proof fn lemma_canonical_injective(a: ResolvedSpec, b: ResolvedSpec)
    requires
        resolved_bounded(a),
        resolved_bounded(b),
        enc_resolved(a) == enc_resolved(b),
    ensures
        resolved_key(a) == resolved_key(b),
{
    let ma = enc_files(a.mods@);
    let mb = enc_files(b.mods@);
    let da = enc_files(a.datapacks@);
    let db = enc_files(b.datapacks@);
    let la = len8(a.mods@.len() as u64);
    let lb = len8(b.mods@.len() as u64);
    let ka = len8(a.datapacks@.len() as u64);
    let kb = len8(b.datapacks@.len() as u64);
    assert(enc_resolved(a) =~= enc_version(a.server) + (la + (ma + (ka + da))));
    assert(enc_resolved(b) =~= enc_version(b.server) + (lb + (mb + (kb + db))));
    assert(enc_version(a.server) + (la + (ma + (ka + da))) =~= (enc_version(a.server) + Seq::<
        u8,
    >::empty()) + (la + (ma + (ka + da))));
    lemma_enc_version_prefix(a.server, b.server, la + (ma + (ka + da)), lb + (mb + (kb + db)));
    lemma_len8_prefix(
        a.mods@.len() as u64,
        b.mods@.len() as u64,
        ma + (ka + da),
        mb + (kb + db),
    );
    lemma_enc_files_prefix(a.mods@, b.mods@, ka + da, kb + db);
    lemma_len8_prefix(a.datapacks@.len() as u64, b.datapacks@.len() as u64, da, db);
    lemma_enc_files_prefix(a.datapacks@, b.datapacks@, Seq::<u8>::empty(), Seq::<u8>::empty());
}

/// Appends a length as eight big-endian bytes.
fn push_len8(out: &mut Vec<u8>, n: u64)
    ensures
        final(out)@ == old(out)@ + len8(n),
{
    proof {
        assert((n >> 56) & 0xff < 256 && (n >> 48) & 0xff < 256 && (n >> 40) & 0xff < 256 && (n
            >> 32) & 0xff < 256 && (n >> 24) & 0xff < 256 && (n >> 16) & 0xff < 256 && (n >> 8)
            & 0xff < 256 && n & 0xff < 256) by (bit_vector);
    }
    out.push(((n >> 56) & 0xff) as u8);
    out.push(((n >> 48) & 0xff) as u8);
    out.push(((n >> 40) & 0xff) as u8);
    out.push(((n >> 32) & 0xff) as u8);
    out.push(((n >> 24) & 0xff) as u8);
    out.push(((n >> 16) & 0xff) as u8);
    out.push(((n >> 8) & 0xff) as u8);
    out.push((n & 0xff) as u8);
    proof {
        assert(out@ =~= old(out)@ + len8(n));
    }
}

/// Appends raw bytes.
fn push_bytes(out: &mut Vec<u8>, b: &[u8])
    ensures
        final(out)@ == old(out)@ + b@,
{
    let n = b.len();
    let mut i: usize = 0;
    while i < n
        invariant
            0 <= i <= n,
            n == b@.len(),
            out@ == old(out)@ + b@.take(i as int),
        decreases n - i,
    {
        out.push(b[i]);
        proof {
            assert(b@.take(i + 1) =~= b@.take(i as int).push(b@[i as int]));
            assert(out@ =~= old(out)@ + b@.take(i + 1));
        }
        i += 1;
    }
    proof {
        assert(b@.take(n as int) =~= b@);
    }
}

/// Appends a string's canonical bytes.
fn push_str_bytes(out: &mut Vec<u8>, s: &str)
    ensures
        final(out)@ == old(out)@ + enc_str(s@),
{
    let b = s.as_bytes();
    let len = b.len();
    push_len8(out, len as u64);
    push_bytes(out, b);
    proof {
        assert(out@ =~= old(out)@ + enc_str(s@));
    }
}

/// The contents of an optional string.
pub open spec fn opt_view(o: Option<String>) -> Option<Seq<char>> {
    match o {
        None => None,
        Some(s) => Some(s@),
    }
}

/// Appends an optional string's canonical bytes: a tag, then the string.
fn push_opt_str(out: &mut Vec<u8>, o: &Option<String>)
    ensures
        final(out)@ == old(out)@ + enc_opt_str(opt_view(*o)),
{
    match o {
        None => {
            out.push(0u8);
            proof {
                assert(out@ =~= old(out)@ + enc_opt_str(None));
            }
        },
        Some(s) => {
            out.push(1u8);
            push_str_bytes(out, s.as_str());
            proof {
                assert(out@ =~= old(out)@ + enc_opt_str(Some(s@)));
            }
        },
    }
}

/// Appends a digest set's canonical bytes, in md5, sha1, sha256 order; an
/// absent set canonicalizes as three absent digests.
fn push_digest_set(out: &mut Vec<u8>, c: &Option<Checksum>)
    ensures
        final(out)@ == old(out)@ + enc_digest_set(*c),
{
    match c {
        None => {
            out.push(0u8);
            out.push(0u8);
            out.push(0u8);
            proof {
                assert(out@ =~= old(out)@ + enc_digest_set(None));
            }
        },
        Some(cc) => {
            push_opt_str(out, &cc.md5);
            push_opt_str(out, &cc.sha1);
            push_opt_str(out, &cc.sha256);
            proof {
                assert(out@ =~= old(out)@ + enc_digest_set(*c));
            }
        },
    }
}

/// Appends an artifact's canonical bytes.
fn push_file(out: &mut Vec<u8>, f: &File)
    ensures
        final(out)@ == old(out)@ + enc_file(*f),
{
    push_str_bytes(out, f.url.as_str());
    push_digest_set(out, &f.checksum);
    proof {
        assert(out@ =~= old(out)@ + enc_file(*f));
    }
}

/// Appends an artifact list's canonical bytes, first to last.
fn push_files(out: &mut Vec<u8>, fs: &Vec<File>)
    ensures
        final(out)@ == old(out)@ + enc_files(fs@),
{
    let n = fs.len();
    let mut i: usize = 0;
    while i < n
        invariant
            0 <= i <= n,
            n == fs@.len(),
            out@ == old(out)@ + enc_files(fs@.take(i as int)),
        decreases n - i,
    {
        proof {
            assert(fs@.take(i + 1) =~= fs@.take(i as int).push(fs@[i as int]));
            lemma_enc_files_push(fs@.take(i as int), fs@[i as int]);
        }
        push_file(out, &fs[i]);
        proof {
            assert(out@ =~= old(out)@ + enc_files(fs@.take(i + 1)));
        }
        i += 1;
    }
    proof {
        assert(fs@.take(n as int) =~= fs@);
    }
}

/// The canonical encoding of a resolved specification.
fn encode_resolved(r: &ResolvedSpec) -> (out: Vec<u8>)
    ensures
        out@ == enc_resolved(*r),
{
    let mut out: Vec<u8> = Vec::new();
    push_str_bytes(&mut out, r.server.url.as_str());
    push_digest_set(&mut out, &r.server.checksum);
    push_len8(&mut out, r.server.java_major);
    push_len8(&mut out, r.mods.len() as u64);
    push_files(&mut out, &r.mods);
    push_len8(&mut out, r.datapacks.len() as u64);
    push_files(&mut out, &r.datapacks);
    proof {
        assert(out@ =~= enc_resolved(*r));
    }
    out
}

/// The fingerprint of a resolved specification: the SHA-256 of its canonical
/// encoding, in hexadecimal.
pub open spec fn spec_fingerprint(r: ResolvedSpec) -> Seq<char> {
    hex_rep(sha256_of(enc_resolved(r)))
}

/// Computes the fingerprint of a resolved specification. Stable across
/// process restarts: the result is a function of the resolved content alone.
pub fn fingerprint(r: &ResolvedSpec) -> (fp: String)
    ensures
        fp@ == spec_fingerprint(*r),
{
    let bytes = encode_resolved(r);
    let h = sha256_bytes(bytes.as_slice());
    to_hex(h.as_slice())
}

/// The fingerprint is a function of the resolved content alone: two
/// specifications with the same resolved URLs, digests, Java version and
/// artifact order fingerprint identically, across runs and restarts.
pub proof fn lemma_fingerprint_deterministic(a: ResolvedSpec, b: ResolvedSpec)
    requires
        resolved_key(a) == resolved_key(b),
    ensures
        spec_fingerprint(a) == spec_fingerprint(b),
{
    lemma_enc_key_congruent(a, b);
}

/// The canonical encoding reads nothing but the resolved key.
#[verifier::rlimit(50)]
proof fn lemma_enc_key_congruent(a: ResolvedSpec, b: ResolvedSpec)
    requires
        resolved_key(a) == resolved_key(b),
    ensures
        enc_resolved(a) == enc_resolved(b),
{
    assert(a.server.url@ == b.server.url@);
    assert(slot_md5(a.server.checksum) == slot_md5(b.server.checksum));
    assert(slot_sha1(a.server.checksum) == slot_sha1(b.server.checksum));
    assert(slot_sha256(a.server.checksum) == slot_sha256(b.server.checksum));
    assert(a.server.java_major == b.server.java_major);
    lemma_enc_files_key_congruent(a.mods@, b.mods@);
    lemma_enc_files_key_congruent(a.datapacks@, b.datapacks@);
    assert(a.mods@.len() == b.mods@.len()) by {
        assert(files_keys(a.mods@).len() == a.mods@.len());
        assert(files_keys(b.mods@).len() == b.mods@.len());
    }
    assert(a.datapacks@.len() == b.datapacks@.len()) by {
        assert(files_keys(a.datapacks@).len() == a.datapacks@.len());
        assert(files_keys(b.datapacks@).len() == b.datapacks@.len());
    }
}

/// The list encoding reads nothing but the artifact keys.
proof fn lemma_enc_files_key_congruent(a: Seq<File>, b: Seq<File>)
    requires
        files_keys(a) == files_keys(b),
    ensures
        enc_files(a) == enc_files(b),
    decreases a.len(),
{
    assert(a.len() == b.len()) by {
        assert(files_keys(a).len() == a.len() && files_keys(b).len() == b.len());
    }
    if a.len() > 0 {
        assert(file_key(a[0]) == file_key(b[0])) by {
            assert(files_keys(a)[0] == file_key(a[0]) && files_keys(b)[0] == file_key(b[0]));
        }
        assert(files_keys(a.drop_first()) =~= files_keys(b.drop_first())) by {
            assert forall|i: int|
                0 <= i < a.drop_first().len() implies files_keys(a.drop_first())[i] == files_keys(
                b.drop_first(),
            )[i] by {
                assert(files_keys(a.drop_first())[i] == file_key(a.drop_first()[i]));
                assert(files_keys(b.drop_first())[i] == file_key(b.drop_first()[i]));
                assert(a.drop_first()[i] == a[i + 1]);
                assert(b.drop_first()[i] == b[i + 1]);
                assert(files_keys(a)[i + 1] == file_key(a[i + 1]));
                assert(files_keys(b)[i + 1] == file_key(b[i + 1]));
            }
        }
        lemma_enc_files_key_congruent(a.drop_first(), b.drop_first());
    }
}

} // verus!
