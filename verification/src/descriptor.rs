//! The durable descriptor: a pretty-printed structured-text rendering of an
//! instance record, written next to the instance's data and read back when
//! the instance is reopened. Writing then reading reproduces an equal
//! record; the parser accepts exactly the canonical text this module writes.
use vstd::prelude::*;

use crate::artifact::Binary;
use crate::error::Error;
use crate::model::{InstanceV, VersionV};
use crate::version::{RepoVersion, Version};
use crate::Instance;

verus! {

/// How one character is written inside a quoted string: quotes and
/// backslashes get a backslash in front, everything else stands as it is.
pub open spec fn esc_char(c: char) -> Seq<char> {
    if c == '"' || c == '\\' {
        seq!['\\', c]
    } else {
        seq![c]
    }
}

/// How a whole string is written inside quotes.
pub open spec fn esc(s: Seq<char>) -> Seq<char>
    decreases s.len(),
{
    if s.len() == 0 {
        Seq::empty()
    } else {
        esc_char(s[0]) + esc(s.subrange(1, s.len() as int))
    }
}

/// Escaping a string one character longer appends that character's escape.
pub proof fn lemma_esc_push(s: Seq<char>, c: char)
    ensures
        esc(s.push(c)) == esc(s) + esc_char(c),
    decreases s.len(),
{
    if s.len() == 0 {
        assert(s.push(c).subrange(1, 1) =~= Seq::<char>::empty());
        assert(s.push(c)[0] == c);
        assert(esc(s) == Seq::<char>::empty());
        assert(esc(Seq::<char>::empty()) == Seq::<char>::empty());
        assert(esc(s.push(c)) == esc_char(c) + Seq::<char>::empty());
        assert(esc_char(c) + Seq::<char>::empty() =~= Seq::<char>::empty() + esc_char(c));
        assert(esc(s) + esc_char(c) =~= Seq::<char>::empty() + esc_char(c));
    } else {
        assert(s.push(c).subrange(1, (s.len() + 1) as int) =~= s.subrange(
            1,
            s.len() as int,
        ).push(c));
        lemma_esc_push(s.subrange(1, s.len() as int), c);
        assert(esc_char(s[0]) + (esc(s.subrange(1, s.len() as int)) + esc_char(c)) =~= (esc_char(
            s[0],
        ) + esc(s.subrange(1, s.len() as int))) + esc_char(c));
    }
}

/// The key under which a reference's payload is stored.
pub open spec fn key_v(v: VersionV) -> Seq<char> {
    match v {
        VersionV::Commit(_) => "Commit\": \""@,
        VersionV::BranchHead(_) => "BranchHead\": \""@,
        VersionV::Tag(_) => "Tag\": \""@,
    }
}

/// The canonical descriptor text of a record.
pub open spec fn descriptor_v(i: InstanceV) -> Seq<char> {
    "{\n  \"name\": \""@ + esc(i.name) + "\""@ + ",\n  \"data\": \""@ + esc(i.data) + "\""@
        + ",\n  \"version\": {\n    \"repo\": \""@ + esc(i.version.repo) + "\""@
        + ",\n    \"version\": {\n      \""@ + key_v(i.version.version) + esc(
        i.version.version.payload(),
    ) + "\""@ + "\n    }\n  },\n  \"binary\": {\n    \"path\": \""@ + esc(i.binary.path) + "\""@
        + "\n  }\n}"@
}

/// Appends `s` to `out` with quotes and backslashes escaped.
fn append_escaped(out: &mut String, s: &str)
    ensures
        final(out)@ == old(out)@ + esc(s@),
{
    let n = s.unicode_len();
    let mut i: usize = 0;
    proof {
        assert(esc(s@.take(0)) =~= Seq::<char>::empty());
        assert(out@ + esc(s@.take(0)) =~= out@);
    }
    while i < n
        invariant
            i <= n,
            n == s@.len(),
            out@ == old(out)@ + esc(s@.take(i as int)),
        decreases n - i,
    {
        let c = s.get_char(i);
        if c == '"' || c == '\\' {
            out.append("\\");
        }
        let piece = s.substring_char(i, i + 1);
        out.append(piece);
        proof {
            reveal_strlit("\\");
            assert(s@.take(i + 1) =~= s@.take(i as int).push(s@[i as int]));
            lemma_esc_push(s@.take(i as int), s@[i as int]);
            assert(piece@ =~= seq![s@[i as int]]);
            if s@[i as int] == '"' || s@[i as int] == '\\' {
                assert("\\"@ + piece@ =~= esc_char(s@[i as int]));
                assert(out@ =~= old(out)@ + esc(s@.take(i + 1)));
            } else {
                assert(out@ =~= old(out)@ + esc(s@.take(i + 1)));
            }
        }
        i = i + 1;
    }
    proof {
        assert(s@.take(n as int) =~= s@);
    }
}

/// Consumes `lit` at `pos` of `s`: the position just past it, or nothing
/// when `s` does not continue with `lit` there.
pub open spec fn drop_lit(s: Seq<char>, pos: int, lit: Seq<char>) -> Option<int> {
    if pos + lit.len() <= s.len() && s.subrange(pos, pos + lit.len()) == lit {
        Some(pos + lit.len())
    } else {
        None
    }
}

/// Consumes a quoted string's remainder starting at `pos` (just past the
/// opening quote): the unescaped contents up to the first unescaped quote,
/// and the position just past that quote. Nothing on an unterminated
/// string or an unknown escape.
pub open spec fn scan_str(s: Seq<char>, pos: int) -> Option<(Seq<char>, int)>
    decreases s.len() - pos,
{
    if pos < 0 || pos >= s.len() {
        None
    } else if s[pos] == '"' {
        Some((Seq::empty(), pos + 1))
    } else if s[pos] == '\\' {
        if pos + 1 < s.len() && (s[pos + 1] == '"' || s[pos + 1] == '\\') {
            match scan_str(s, pos + 2) {
                Some((t, q)) => Some((seq![s[pos + 1]] + t, q)),
                None => None,
            }
        } else {
            None
        }
    } else {
        match scan_str(s, pos + 1) {
            Some((t, q)) => Some((seq![s[pos]] + t, q)),
            None => None,
        }
    }
}

/// The record whose canonical descriptor text `s` is, if it is one.
pub open spec fn parse_descriptor_v(s: Seq<char>) -> Option<InstanceV> {
    match drop_lit(s, 0, "{\n  \"name\": \""@) {
        None => None,
        Some(p1) => match scan_str(s, p1) {
            None => None,
            Some((name, p2)) => match drop_lit(s, p2, ",\n  \"data\": \""@) {
                None => None,
                Some(p3) => match scan_str(s, p3) {
                    None => None,
                    Some((data, p4)) => match drop_lit(
                        s,
                        p4,
                        ",\n  \"version\": {\n    \"repo\": \""@,
                    ) {
                        None => None,
                        Some(p5) => match scan_str(s, p5) {
                            None => None,
                            Some((repo, p6)) => match drop_lit(
                                s,
                                p6,
                                ",\n    \"version\": {\n      \""@,
                            ) {
                                None => None,
                                Some(p7) => match parse_reference(s, p7) {
                                    None => None,
                                    Some((version, p8)) => match drop_lit(
                                        s,
                                        p8,
                                        "\n    }\n  },\n  \"binary\": {\n    \"path\": \""@,
                                    ) {
                                        None => None,
                                        Some(p9) => match scan_str(s, p9) {
                                            None => None,
                                            Some((bin, p10)) => match drop_lit(
                                                s,
                                                p10,
                                                "\n  }\n}"@,
                                            ) {
                                                None => None,
                                                Some(p11) => if p11 == s.len() {
                                                    Some(
                                                        InstanceV {
                                                            name,
                                                            data,
                                                            version: crate::model::RepoVersionV {
                                                                repo,
                                                                version,
                                                            },
                                                            binary: crate::artifact::BinaryV {
                                                                path: bin,
                                                            },
                                                        },
                                                    )
                                                } else {
                                                    None
                                                },
                                            },
                                        },
                                    },
                                },
                            },
                        },
                    },
                },
            },
        },
    }
}

/// The reference part of a descriptor: one of the three fixed keys, then
/// the quoted payload.
pub open spec fn parse_reference(s: Seq<char>, pos: int) -> Option<(VersionV, int)> {
    if drop_lit(s, pos, "Commit\": \""@) is Some {
        match scan_str(s, drop_lit(s, pos, "Commit\": \""@)->Some_0) {
            Some((pay, q)) => Some((VersionV::Commit(pay), q)),
            None => None,
        }
    } else if drop_lit(s, pos, "BranchHead\": \""@) is Some {
        match scan_str(s, drop_lit(s, pos, "BranchHead\": \""@)->Some_0) {
            Some((pay, q)) => Some((VersionV::BranchHead(pay), q)),
            None => None,
        }
    } else if drop_lit(s, pos, "Tag\": \""@) is Some {
        match scan_str(s, drop_lit(s, pos, "Tag\": \""@)->Some_0) {
            Some((pay, q)) => Some((VersionV::Tag(pay), q)),
            None => None,
        }
    } else {
        None
    }
}

/// Decides whether `text` continues with `lit` at `pos` and steps past it.
fn expect_lit(text: &str, pos: usize, lit: &str) -> (r: Option<usize>)
    requires
        pos <= text@.len(),
    ensures
        match r {
            Some(p) => drop_lit(text@, pos as int, lit@) == Some(p as int) && p <= text@.len(),
            None => drop_lit(text@, pos as int, lit@) is None,
        },
{
    let n = text.unicode_len();
    let m = lit.unicode_len();
    if m > n - pos {
        return None;
    }
    let mut j: usize = 0;
    while j < m
        invariant
            j <= m,
            pos + m <= n,
            n == text@.len(),
            m == lit@.len(),
            forall|k: int| 0 <= k < j ==> text@[pos + k] == lit@[k],
        decreases m - j,
    {
        if text.get_char(pos + j) != lit.get_char(j) {
            proof {
                let ghost jj = j as int;
                if drop_lit(text@, pos as int, lit@) is Some {
                    assert(text@.subrange(pos as int, pos + lit@.len())[jj] == lit@[jj]);
                }
            }
            return None;
        }
        j = j + 1;
    }
    proof {
        assert(text@.subrange(pos as int, pos + lit@.len()) =~= lit@);
    }
    Some(pos + m)
}

/// Splices `prefix` onto the front of a scan result.
pub open spec fn scan_cons(prefix: Seq<char>, r: Option<(Seq<char>, int)>) -> Option<
    (Seq<char>, int),
> {
    match r {
        Some((t, q)) => Some((prefix + t, q)),
        None => None,
    }
}

/// Reads a quoted string's remainder starting at `pos`, unescaping it.
fn read_string(text: &str, pos: usize) -> (r: Option<(String, usize)>)
    requires
        pos <= text@.len(),
    ensures
        match r {
            Some((t, q)) => scan_str(text@, pos as int) == Some((t@, q as int)) && q <= text@.len(),
            None => scan_str(text@, pos as int) is None,
        },
{
    let n = text.unicode_len();
    let mut acc = String::new();
    let mut i: usize = pos;
    proof {
        if scan_str(text@, pos as int) is Some {
            let ghost (t, q) = scan_str(text@, pos as int)->Some_0;
            assert(acc@ + t =~= t);
        }
    }
    while i < n
        invariant
            pos <= i <= n,
            n == text@.len(),
            scan_str(text@, pos as int) == scan_cons(acc@, scan_str(text@, i as int)),
        decreases n - i,
    {
        let c = text.get_char(i);
        if c == '"' {
            proof {
                assert(acc@ + Seq::<char>::empty() =~= acc@);
            }
            return Some((acc, i + 1));
        } else if c == '\\' {
            if i + 1 >= n {
                return None;
            }
            let c2 = text.get_char(i + 1);
            if c2 == '"' || c2 == '\\' {
                let piece = text.substring_char(i + 1, i + 2);
                proof {
                    assert(piece@ =~= seq![text@[i + 1]]);
                    if scan_str(text@, i + 2) is Some {
                        let ghost (t, q) = scan_str(text@, i + 2)->Some_0;
                        assert(acc@ + (seq![text@[i + 1]] + t) =~= (acc@ + seq![text@[i + 1]])
                            + t);
                    }
                }
                acc.append(piece);
                i = i + 2;
            } else {
                return None;
            }
        } else {
            let piece = text.substring_char(i, i + 1);
            proof {
                assert(piece@ =~= seq![text@[i as int]]);
                if scan_str(text@, i + 1) is Some {
                    let ghost (t, q) = scan_str(text@, i + 1)->Some_0;
                    assert(acc@ + (seq![text@[i as int]] + t) =~= (acc@ + seq![text@[i as int]])
                        + t);
                }
            }
            acc.append(piece);
            i = i + 1;
        }
    }
    None
}

/// A literal is refused where already its first character differs.
proof fn lemma_drop_lit_mismatch(u: Seq<char>, pos: int, lit: Seq<char>)
    requires
        0 <= pos < u.len(),
        lit.len() > 0,
        u[pos] != lit[0],
    ensures
        drop_lit(u, pos, lit) is None,
{
    if pos + lit.len() <= u.len() && u.subrange(pos, pos + lit.len()) == lit {
        assert(u.subrange(pos, pos + lit.len())[0] == u[pos]);
        assert(false);
    }
}

/// Scanning an escaped string followed by a quote recovers the string and
/// stops just past the quote.
proof fn lemma_scan_esc(u: Seq<char>, head: Seq<char>, t: Seq<char>, rest: Seq<char>)
    requires
        u == head + esc(t) + seq!['"'] + rest,
    ensures
        scan_str(u, head.len() as int) == Some((t, head.len() + esc(t).len() + 1int)),
    decreases t.len(),
{
    let pos = head.len() as int;
    if t.len() == 0 {
        assert(esc(t) == Seq::<char>::empty());
        assert(u[pos] == '"');
        assert(t =~= Seq::<char>::empty());
    } else {
        let c = t[0];
        let t2 = t.subrange(1, t.len() as int);
        assert(esc(t) == esc_char(c) + esc(t2));
        if c == '"' || c == '\\' {
            assert(esc_char(c) =~= seq!['\\', c]);
            assert(esc(t)[0] == '\\');
            assert(esc(t)[1] == c);
            assert(u[pos] == '\\');
            assert(u[pos + 1] == c);
            assert(head + esc(t) =~= (head + esc_char(c)) + esc(t2));
            lemma_scan_esc(u, head + esc_char(c), t2, rest);
            assert(seq![u[pos + 1]] + t2 =~= t);
        } else {
            assert(esc_char(c) =~= seq![c]);
            assert(esc(t)[0] == c);
            assert(u[pos] == c);
            assert(head + esc(t) =~= (head + esc_char(c)) + esc(t2));
            lemma_scan_esc(u, head + esc_char(c), t2, rest);
            assert(seq![u[pos]] + t2 =~= t);
        }
    }
}

/// Reading back the canonical descriptor text of any record yields that
/// record: the persisted descriptor round-trips exactly.
/// Cumulative positions inside the canonical text of `i`: each scanned
/// string ends one past its closing quote, each literal ends at its length.
pub open spec fn rt_p1(i: InstanceV) -> int {
    "{\n  \"name\": \""@.len() as int
}

pub open spec fn rt_p2(i: InstanceV) -> int {
    rt_p1(i) + esc(i.name).len() + 1
}

pub open spec fn rt_p3(i: InstanceV) -> int {
    rt_p2(i) + ",\n  \"data\": \""@.len()
}

pub open spec fn rt_p4(i: InstanceV) -> int {
    rt_p3(i) + esc(i.data).len() + 1
}

pub open spec fn rt_p5(i: InstanceV) -> int {
    rt_p4(i) + ",\n  \"version\": {\n    \"repo\": \""@.len()
}

pub open spec fn rt_p6(i: InstanceV) -> int {
    rt_p5(i) + esc(i.version.repo).len() + 1
}

pub open spec fn rt_p7(i: InstanceV) -> int {
    rt_p6(i) + ",\n    \"version\": {\n      \""@.len()
}

pub open spec fn rt_p8(i: InstanceV) -> int {
    rt_p7(i) + key_v(i.version.version).len()
}

pub open spec fn rt_p9(i: InstanceV) -> int {
    rt_p8(i) + esc(i.version.version.payload()).len() + 1
}

pub open spec fn rt_p10(i: InstanceV) -> int {
    rt_p9(i) + "\n    }\n  },\n  \"binary\": {\n    \"path\": \""@.len()
}

pub open spec fn rt_p11(i: InstanceV) -> int {
    rt_p10(i) + esc(i.binary.path).len() + 1
}

#[verifier::spinoff_prover]
proof fn lemma_rt_lits(i: InstanceV)
    ensures
        drop_lit(descriptor_v(i), 0, "{\n  \"name\": \""@) == Some(rt_p1(i)),
        drop_lit(descriptor_v(i), rt_p2(i), ",\n  \"data\": \""@) == Some(rt_p3(i)),
        drop_lit(descriptor_v(i), rt_p4(i), ",\n  \"version\": {\n    \"repo\": \""@)
            == Some(rt_p5(i)),
        drop_lit(descriptor_v(i), rt_p6(i), ",\n    \"version\": {\n      \""@) == Some(
            rt_p7(i),
        ),
        drop_lit(descriptor_v(i), rt_p7(i), key_v(i.version.version)) == Some(rt_p8(i)),
        drop_lit(descriptor_v(i), rt_p9(i), "\n    }\n  },\n  \"binary\": {\n    \"path\": \""@)
            == Some(rt_p10(i)),
        drop_lit(descriptor_v(i), rt_p11(i), "\n  }\n}"@) == Some(descriptor_v(i).len() as int),
{
    let u = descriptor_v(i);
    reveal_strlit("\"");
    assert(u.subrange(0, rt_p1(i)) =~= "{\n  \"name\": \""@);
    assert(u.subrange(rt_p2(i), rt_p3(i)) =~= ",\n  \"data\": \""@);
    assert(u.subrange(rt_p4(i), rt_p5(i)) =~= ",\n  \"version\": {\n    \"repo\": \""@);
    assert(u.subrange(rt_p6(i), rt_p7(i)) =~= ",\n    \"version\": {\n      \""@);
    assert(u.subrange(rt_p7(i), rt_p8(i)) =~= key_v(i.version.version));
    assert(u.subrange(rt_p9(i), rt_p10(i)) =~= "\n    }\n  },\n  \"binary\": {\n    \"path\": \""@);
    assert(u.subrange(rt_p11(i), u.len() as int) =~= "\n  }\n}"@);
}

#[verifier::spinoff_prover]
proof fn lemma_rt_scan_name(i: InstanceV)
    ensures
        scan_str(descriptor_v(i), rt_p1(i)) == Some((i.name, rt_p2(i))),
{
    let u = descriptor_v(i);
    reveal_strlit("\"");
    assert(u =~= u.subrange(0, rt_p1(i)) + esc(i.name) + seq!['"'] + u.subrange(
        rt_p2(i),
        u.len() as int,
    ));
    lemma_scan_esc(u, u.subrange(0, rt_p1(i)), i.name, u.subrange(rt_p2(i), u.len() as int));
}

#[verifier::spinoff_prover]
proof fn lemma_rt_scan_data(i: InstanceV)
    ensures
        scan_str(descriptor_v(i), rt_p3(i)) == Some((i.data, rt_p4(i))),
{
    let u = descriptor_v(i);
    reveal_strlit("\"");
    assert(u =~= u.subrange(0, rt_p3(i)) + esc(i.data) + seq!['"'] + u.subrange(
        rt_p4(i),
        u.len() as int,
    ));
    lemma_scan_esc(u, u.subrange(0, rt_p3(i)), i.data, u.subrange(rt_p4(i), u.len() as int));
}

#[verifier::spinoff_prover]
proof fn lemma_rt_scan_repo(i: InstanceV)
    ensures
        scan_str(descriptor_v(i), rt_p5(i)) == Some((i.version.repo, rt_p6(i))),
{
    let u = descriptor_v(i);
    reveal_strlit("\"");
    assert(u =~= u.subrange(0, rt_p5(i)) + esc(i.version.repo) + seq!['"'] + u.subrange(
        rt_p6(i),
        u.len() as int,
    ));
    lemma_scan_esc(
        u,
        u.subrange(0, rt_p5(i)),
        i.version.repo,
        u.subrange(rt_p6(i), u.len() as int),
    );
}

#[verifier::spinoff_prover]
proof fn lemma_rt_scan_payload(i: InstanceV)
    ensures
        scan_str(descriptor_v(i), rt_p8(i)) == Some((i.version.version.payload(), rt_p9(i))),
{
    let u = descriptor_v(i);
    reveal_strlit("\"");
    assert(u =~= u.subrange(0, rt_p8(i)) + esc(i.version.version.payload()) + seq!['"']
        + u.subrange(rt_p9(i), u.len() as int));
    lemma_scan_esc(
        u,
        u.subrange(0, rt_p8(i)),
        i.version.version.payload(),
        u.subrange(rt_p9(i), u.len() as int),
    );
}

#[verifier::spinoff_prover]
proof fn lemma_rt_scan_binary(i: InstanceV)
    ensures
        scan_str(descriptor_v(i), rt_p10(i)) == Some((i.binary.path, rt_p11(i))),
{
    let u = descriptor_v(i);
    reveal_strlit("\"");
    assert(u =~= u.subrange(0, rt_p10(i)) + esc(i.binary.path) + seq!['"'] + u.subrange(
        rt_p11(i),
        u.len() as int,
    ));
    lemma_scan_esc(
        u,
        u.subrange(0, rt_p10(i)),
        i.binary.path,
        u.subrange(rt_p11(i), u.len() as int),
    );
}

#[verifier::spinoff_prover]
proof fn lemma_rt_reference(i: InstanceV)
    ensures
        parse_reference(descriptor_v(i), rt_p7(i)) == Some((i.version.version, rt_p9(i))),
{
    let u = descriptor_v(i);
    lemma_rt_lits(i);
    lemma_rt_scan_payload(i);
    reveal_strlit("Commit\": \"");
    reveal_strlit("BranchHead\": \"");
    reveal_strlit("Tag\": \"");
    match i.version.version {
        VersionV::Commit(_) => {
        },
        VersionV::BranchHead(_) => {
            assert(u[rt_p7(i)] == 'B') by {
                assert(u.subrange(rt_p7(i), rt_p8(i))[0] == u[rt_p7(i)]);
                assert(key_v(i.version.version)[0] == 'B');
            }
            lemma_drop_lit_mismatch(u, rt_p7(i), "Commit\": \""@);
        },
        VersionV::Tag(_) => {
            assert(u[rt_p7(i)] == 'T') by {
                assert(u.subrange(rt_p7(i), rt_p8(i))[0] == u[rt_p7(i)]);
                assert(key_v(i.version.version)[0] == 'T');
            }
            lemma_drop_lit_mismatch(u, rt_p7(i), "Commit\": \""@);
            lemma_drop_lit_mismatch(u, rt_p7(i), "BranchHead\": \""@);
        },
    }
}

/// Reading back the canonical descriptor text of any record yields that
/// record: the persisted descriptor round-trips exactly.
#[verifier::spinoff_prover]
pub proof fn lemma_descriptor_round_trip(i: InstanceV)
    ensures
        parse_descriptor_v(descriptor_v(i)) == Some(i),
{
    let u = descriptor_v(i);
    lemma_rt_lits(i);
    lemma_rt_scan_name(i);
    lemma_rt_scan_data(i);
    lemma_rt_scan_repo(i);
    lemma_rt_reference(i);
    lemma_rt_scan_binary(i);
    assert(InstanceV {
        name: i.name,
        data: i.data,
        version: crate::model::RepoVersionV { repo: i.version.repo, version: i.version.version },
        binary: crate::artifact::BinaryV { path: i.binary.path },
    } =~= i);
}

/// Serialization is lossless: two records with the same descriptor text
/// are the same record.
pub proof fn lemma_descriptor_injective(a: InstanceV, b: InstanceV)
    requires
        descriptor_v(a) == descriptor_v(b),
    ensures
        a == b,
{
    lemma_descriptor_round_trip(a);
    lemma_descriptor_round_trip(b);
}

/// The parser rejects only non-descriptors: text it refuses is the
/// descriptor text of no record at all.
pub proof fn lemma_rejected_text_is_no_descriptor(s: Seq<char>, i: InstanceV)
    requires
        parse_descriptor_v(s) is None,
    ensures
        descriptor_v(i) != s,
{
    if descriptor_v(i) == s {
        lemma_descriptor_round_trip(i);
    }
}

impl Instance {
    /// Reads a record back from descriptor text; fails on anything but the
    /// canonical text of some record.
    pub fn parse_descriptor(text: &str) -> (r: Result<Instance, Error>)
        ensures
            (r matches Ok(inst) ==> parse_descriptor_v(text@) == Some(inst@)),
            (r matches Err(e) ==> e == Error::MalformedDescriptor && parse_descriptor_v(text@)
                is None),
    {
        let p1 = match expect_lit(text, 0, "{\n  \"name\": \"") {
            Some(p) => p,
            None => { return Err(Error::MalformedDescriptor) },
        };
        let (name, p2) = match read_string(text, p1) {
            Some(x) => x,
            None => { return Err(Error::MalformedDescriptor) },
        };
        let p3 = match expect_lit(text, p2, ",\n  \"data\": \"") {
            Some(p) => p,
            None => { return Err(Error::MalformedDescriptor) },
        };
        let (data, p4) = match read_string(text, p3) {
            Some(x) => x,
            None => { return Err(Error::MalformedDescriptor) },
        };
        let p5 = match expect_lit(text, p4, ",\n  \"version\": {\n    \"repo\": \"") {
            Some(p) => p,
            None => { return Err(Error::MalformedDescriptor) },
        };
        let (repo, p6) = match read_string(text, p5) {
            Some(x) => x,
            None => { return Err(Error::MalformedDescriptor) },
        };
        let p7 = match expect_lit(text, p6, ",\n    \"version\": {\n      \"") {
            Some(p) => p,
            None => { return Err(Error::MalformedDescriptor) },
        };
        let (version, p8): (Version, usize) = if let Some(pc) = expect_lit(
            text,
            p7,
            "Commit\": \"",
        ) {
            match read_string(text, pc) {
                Some((pay, q)) => (Version::Commit(pay), q),
                None => { return Err(Error::MalformedDescriptor) },
            }
        } else if let Some(pb) = expect_lit(text, p7, "BranchHead\": \"") {
            match read_string(text, pb) {
                Some((pay, q)) => (Version::BranchHead(pay), q),
                None => { return Err(Error::MalformedDescriptor) },
            }
        } else if let Some(pt) = expect_lit(text, p7, "Tag\": \"") {
            match read_string(text, pt) {
                Some((pay, q)) => (Version::Tag(pay), q),
                None => { return Err(Error::MalformedDescriptor) },
            }
        } else {
            return Err(Error::MalformedDescriptor);
        };
        let p9 = match expect_lit(text, p8, "\n    }\n  },\n  \"binary\": {\n    \"path\": \"") {
            Some(p) => p,
            None => { return Err(Error::MalformedDescriptor) },
        };
        let (bin, p10) = match read_string(text, p9) {
            Some(x) => x,
            None => { return Err(Error::MalformedDescriptor) },
        };
        let p11 = match expect_lit(text, p10, "\n  }\n}") {
            Some(p) => p,
            None => { return Err(Error::MalformedDescriptor) },
        };
        if p11 != text.unicode_len() {
            return Err(Error::MalformedDescriptor);
        }
        Ok(
            Instance::assemble(
                name,
                data,
                RepoVersion { repo, version },
                Binary::new(bin),
            ),
        )
    }

    /// Renders this record as its canonical descriptor text.
    pub fn to_descriptor(&self) -> (r: String)
        ensures
            r@ == descriptor_v(self@),
    {
        let mut out = String::new();
        proof {
            assert(out@ + "{\n  \"name\": \""@ =~= "{\n  \"name\": \""@);
        }
        out.append("{\n  \"name\": \"");
        append_escaped(&mut out, self.name());
        out.append("\"");
        out.append(",\n  \"data\": \"");
        append_escaped(&mut out, self.data());
        out.append("\"");
        out.append(",\n  \"version\": {\n    \"repo\": \"");
        append_escaped(&mut out, self.version().repo.as_str());
        out.append("\"");
        out.append(",\n    \"version\": {\n      \"");
        match &self.version().version {
            Version::Commit(_) => out.append("Commit\": \""),
            Version::BranchHead(_) => out.append("BranchHead\": \""),
            Version::Tag(_) => out.append("Tag\": \""),
        }
        append_escaped(&mut out, self.version().checkout().as_str());
        out.append("\"");
        out.append("\n    }\n  },\n  \"binary\": {\n    \"path\": \"");
        append_escaped(&mut out, self.binary().file());
        out.append("\"");
        out.append("\n  }\n}");
        out
    }
}

} // verus!
