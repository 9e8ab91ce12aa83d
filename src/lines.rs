//! The registry file format: one path per line, each terminated by a newline.
use vstd::prelude::*;

use crate::bytes::copy_bytes;

verus! {

/// The byte that ends a line.
pub const NEWLINE: u8 = 10;

/// The byte that may stand before a line's newline.
pub const CARRIAGE_RETURN: u8 = 13;

/// A line as it is read back: a carriage return before the newline is dropped.
pub open spec fn trimmed(l: Seq<u8>) -> Seq<u8> {
    if l.len() > 0 && l.last() == CARRIAGE_RETURN {
        l.drop_last()
    } else {
        l
    }
}

/// The lines completed so far in `s`, and the bytes of the line still open.
pub open spec fn split_prefix(s: Seq<u8>) -> (Seq<Seq<u8>>, Seq<u8>)
    decreases s.len(),
{
    if s.len() == 0 {
        (seq![], seq![])
    } else {
        let (done, open) = split_prefix(s.drop_last());
        if s.last() == NEWLINE {
            (done.push(trimmed(open)), seq![])
        } else {
            (done, open.push(s.last()))
        }
    }
}

/// The lines of a file's contents; a last line without a newline still counts.
pub open spec fn lines_of(s: Seq<u8>) -> Seq<Seq<u8>> {
    let (done, open) = split_prefix(s);
    if open.len() == 0 {
        done
    } else {
        done.push(trimmed(open))
    }
}

/// The byte strings held by a vector of byte vectors.
pub open spec fn views(v: Seq<Vec<u8>>) -> Seq<Seq<u8>> {
    v.map_values(|l: Vec<u8>| l@)
}

/// The bytes that record one entry at the end of the file.
pub open spec fn line_of(p: Seq<u8>) -> Seq<u8> {
    p.push(NEWLINE)
}

fn trim_line(l: &mut Vec<u8>)
    ensures
        final(l)@ == trimmed(old(l)@),
{
    let n = l.len();
    if n > 0 && l[n - 1] == CARRIAGE_RETURN {
        l.pop();
    }
}

/// Splits a file's contents into its lines.
pub fn parse_lines(s: &[u8]) -> (r: Vec<Vec<u8>>)
    ensures
        views(r@) == lines_of(s@),
{
    let mut done: Vec<Vec<u8>> = Vec::new();
    let mut open: Vec<u8> = Vec::new();
    let mut i: usize = 0;
    while i < s.len()
        invariant
            i <= s@.len(),
            (views(done@), open@) == split_prefix(s@.take(i as int)),
        decreases s@.len() - i,
    {
        assert(s@.take(i + 1).drop_last() =~= s@.take(i as int));
        assert(s@.take(i + 1).last() == s@[i as int]);
        if s[i] == NEWLINE {
            let ghost before = views(done@);
            trim_line(&mut open);
            let ghost line = open@;
            done.push(open);
            open = Vec::new();
            assert(views(done@) =~= before.push(line));
            assert(open@ =~= seq![]);
        } else {
            open.push(s[i]);
        }
        i += 1;
    }
    assert(s@.take(i as int) =~= s@);
    if open.len() > 0 {
        let ghost before = views(done@);
        trim_line(&mut open);
        let ghost line = open@;
        done.push(open);
        assert(views(done@) =~= before.push(line));
        assert(views(done@) =~= lines_of(s@));
    }
    done
}

/// The bytes to append to record `p`.
pub fn line_for(p: &[u8]) -> (r: Vec<u8>)
    ensures
        r@ == line_of(p@),
{
    let mut r = copy_bytes(p);
    r.push(NEWLINE);
    r
}

proof fn lemma_split_concat(c: Seq<u8>, q: Seq<u8>)
    requires
        split_prefix(c).1.len() == 0,
    ensures
        split_prefix(c + q) == (split_prefix(c).0 + split_prefix(q).0, split_prefix(q).1),
    decreases q.len(),
{
    if q.len() == 0 {
        assert(c + q =~= c);
        assert(split_prefix(c).0 + split_prefix(q).0 =~= split_prefix(c).0);
    } else {
        lemma_split_concat(c, q.drop_last());
        assert((c + q).drop_last() =~= c + q.drop_last());
        assert((c + q).last() == q.last());
        let (d, o) = split_prefix(q.drop_last());
        assert((split_prefix(c).0 + d).push(trimmed(o)) =~= split_prefix(c).0 + d.push(trimmed(o)));
    }
}

proof fn lemma_split_one_line(p: Seq<u8>)
    requires
        !p.contains(NEWLINE),
    ensures
        split_prefix(p) == (Seq::<Seq<u8>>::empty(), p),
    decreases p.len(),
{
    if p.len() > 0 {
        assert(p.drop_last().len() < p.len());
        assert(!p.drop_last().contains(NEWLINE)) by {
            if p.drop_last().contains(NEWLINE) {
                let k = choose|k: int| 0 <= k < p.drop_last().len() && p.drop_last()[k] == NEWLINE;
                assert(p[k] == NEWLINE);
            }
        }
        lemma_split_one_line(p.drop_last());
        assert(p[p.len() - 1] == p.last());
        assert(p.drop_last().push(p.last()) =~= p);
    }
}

/// A file that ends at a line boundary, with the line of a path appended,
/// reads back as the same lines followed by that path, and again ends at a
/// line boundary: so a registry reopened after an insertion holds what it held
/// before, plus the path. The path must hold no newline and must not end in a
/// carriage return, which reading back would drop.
pub proof fn lemma_append_reads_back(c: Seq<u8>, p: Seq<u8>)
    requires
        c.len() == 0 || c.last() == NEWLINE,
        !p.contains(NEWLINE),
        p.len() == 0 || p.last() != CARRIAGE_RETURN,
    ensures
        lines_of(c + line_of(p)) == lines_of(c).push(p),
        (c + line_of(p)).last() == NEWLINE,
{
    let q = line_of(p);
    lemma_split_one_line(p);
    assert(q.drop_last() =~= p);
    lemma_split_concat(c, q);
    assert(split_prefix(q).0 =~= seq![p]);
    assert(lines_of(c).push(p) =~= split_prefix(c).0 + seq![p]);
}

} // verus!
