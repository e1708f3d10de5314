use vstd::prelude::*;

verus! {

/// One candidate source file: the bytes of its file name (the final
/// path component, exactly as the platform hands it out — it need not
/// be valid UTF-8) and its last-modified timestamp in nanoseconds
/// relative to some fixed epoch, when that could be read. An
/// unreadable timestamp degrades the ordering, never the run.
pub struct SourceEntry {
    pub name: Vec<u8>,
    pub modified: Option<i64>,
}

/// ASCII lower-casing of one byte; other bytes pass unchanged.
pub open spec fn lower_byte(b: u8) -> u8 {
    if 65 <= b && b <= 90 {
        (b + 32) as u8
    } else {
        b
    }
}

/// The extension bytes equal the (lower-case) target, case-insensitively.
pub open spec fn ext_matches(e: Seq<u8>, t: Seq<u8>) -> bool {
    e.len() == t.len() && (forall|k: int| 0 <= k < e.len() ==> lower_byte(e[k]) == t[k])
}

/// The fixed allow-list of raster photo extensions: jpg, jpeg, png.
pub open spec fn allowed_ext(e: Seq<u8>) -> bool {
    ||| ext_matches(e, seq![106u8, 112u8, 103u8])
    ||| ext_matches(e, seq![106u8, 112u8, 101u8, 103u8])
    ||| ext_matches(e, seq![112u8, 110u8, 103u8])
}

/// Byte 46 is the dot. Index `i` is the final dot of the name, with a
/// nonempty stem before it: a name that is all extension (a leading
/// dot and nothing else before it) yields no extension.
pub open spec fn is_last_dot(s: Seq<u8>, i: int) -> bool {
    &&& 1 <= i < s.len()
    &&& s[i] == 46u8
    &&& forall|j: int| i < j < s.len() ==> s[j] != 46u8
}

/// A file name (given as its bytes) is eligible when the bytes after
/// its final dot form an allow-listed extension. The allow-listed
/// extensions are plain ASCII, and a dot byte never occurs inside a
/// multi-byte UTF-8 sequence, so this is the textual extension
/// whenever the name has one.
pub open spec fn spec_eligible(s: Seq<u8>) -> bool {
    exists|i: int| is_last_dot(s, i) && allowed_ext(s.subrange(i + 1, s.len() as int))
}

/// An entry is eligible when its file name is.
pub open spec fn entry_eligible(e: SourceEntry) -> bool {
    spec_eligible(e.name@)
}

fn lower_ascii(b: u8) -> (r: u8)
    ensures
        r == lower_byte(b),
{
    if 65 <= b && b <= 90 {
        b + 32
    } else {
        b
    }
}

/// Decides whether a file of this name is taken as a source image:
/// the extension filter of the enumerator.
pub fn is_eligible(name: &Vec<u8>) -> (r: bool)
    ensures
        r == spec_eligible(name@),
{
    let n: usize = name.len();
    let ghost s = name@;
    let mut k: usize = n;
    let mut dot: usize = 0;
    let mut found: bool = false;
    while k > 1 && !found
        invariant
            name@ == s,
            n == s.len(),
            k <= n,
            found ==> {
                &&& 1 <= dot < n
                &&& s[dot as int] == 46u8
                &&& forall|j: int| dot < j < n ==> s[j] != 46u8
            },
            !found ==> forall|j: int| k <= j < n ==> s[j] != 46u8,
        decreases (if found { 0int } else { k as int + 1 }),
    {
        if name[k - 1] == 46 {
            dot = k - 1;
            found = true;
        } else {
            k = k - 1;
        }
    }
    if !found {
        proof {
            assert(forall|i: int| !is_last_dot(s, i));
        }
        return false;
    }
    proof {
        assert(is_last_dot(s, dot as int));
        assert forall|i: int| is_last_dot(s, i) implies i == dot as int by {
            if i < dot as int {
                assert(s[dot as int] == 46u8);
            } else if i > dot as int {
                assert(s[i] == 46u8);
            }
        }
    }
    let ghost e = s.subrange(dot as int + 1, s.len() as int);
    let el: usize = n - dot - 1;
    proof {
        assert(e.len() == el);
    }
    if el == 3 {
        let a0 = lower_ascii(name[dot + 1]);
        let a1 = lower_ascii(name[dot + 2]);
        let a2 = lower_ascii(name[dot + 3]);
        let ok = (a0 == 106 && a1 == 112 && a2 == 103) || (a0 == 112 && a1 == 110 && a2 == 103);
        proof {
            assert(e[0] == s[dot as int + 1]);
            assert(e[1] == s[dot as int + 2]);
            assert(e[2] == s[dot as int + 3]);
            if ok {
                assert(allowed_ext(e));
                assert(spec_eligible(s));
            } else {
                assert(!allowed_ext(e));
                assert(!spec_eligible(s));
            }
        }
        ok
    } else if el == 4 {
        let a0 = lower_ascii(name[dot + 1]);
        let a1 = lower_ascii(name[dot + 2]);
        let a2 = lower_ascii(name[dot + 3]);
        let a3 = lower_ascii(name[dot + 4]);
        let ok = a0 == 106 && a1 == 112 && a2 == 101 && a3 == 103;
        proof {
            assert(e[0] == s[dot as int + 1]);
            assert(e[1] == s[dot as int + 2]);
            assert(e[2] == s[dot as int + 3]);
            assert(e[3] == s[dot as int + 4]);
            if ok {
                assert(allowed_ext(e));
                assert(spec_eligible(s));
            } else {
                assert(!allowed_ext(e));
                assert(!spec_eligible(s));
            }
        }
        ok
    } else {
        proof {
            assert(!allowed_ext(e));
            assert(!spec_eligible(s));
        }
        false
    }
}

/// The ordering key of the enumerator: ascending modification time,
/// an absent timestamp sorting as earliest.
pub open spec fn key_le(a: SourceEntry, b: SourceEntry) -> bool {
    match (a.modified, b.modified) {
        (Option::None, _) => true,
        (Option::Some(_), Option::None) => false,
        (Option::Some(x), Option::Some(y)) => x <= y,
    }
}

/// The sequence is ordered ascending by the modification-time key.
pub open spec fn sorted_by_mtime(s: Seq<SourceEntry>) -> bool {
    forall|i: int, j: int| 0 <= i < j < s.len() ==> key_le(s[i], s[j])
}

/// The eligible entries of a listing, in listing order.
pub open spec fn eligible_of(s: Seq<SourceEntry>) -> Seq<SourceEntry> {
    s.filter(|e: SourceEntry| entry_eligible(e))
}

proof fn key_le_props()
    ensures
        forall|a: SourceEntry, b: SourceEntry| #[trigger] key_le(a, b) || key_le(b, a),
        forall|a: SourceEntry, b: SourceEntry, c: SourceEntry|
            #![trigger key_le(a, b), key_le(b, c)]
            key_le(a, b) && key_le(b, c) ==> key_le(a, c),
{
}

fn key_le_exec(a: &SourceEntry, b: &SourceEntry) -> (r: bool)
    ensures
        r == key_le(*a, *b),
{
    match (a.modified, b.modified) {
        (Option::None, _) => true,
        (Option::Some(_), Option::None) => false,
        (Option::Some(x), Option::Some(y)) => x <= y,
    }
}

/// Orders the entries ascending by modification time; entries without
/// a timestamp come first. Ties may land in either order: the result
/// is a sorted permutation of the input, nothing more is promised.
pub fn sort_by_mtime(entries: Vec<SourceEntry>) -> (out: Vec<SourceEntry>)
    ensures
        sorted_by_mtime(out@),
        out@.to_multiset() == entries@.to_multiset(),
{
    broadcast use vstd::seq_lib::group_to_multiset_ensures;

    let ghost orig = entries@;
    let mut rest = entries;
    let mut out: Vec<SourceEntry> = Vec::new();
    while rest.len() > 0
        invariant
            rest@.len() <= orig.len(),
            sorted_by_mtime(out@),
            rest@ == orig.subrange(orig.len() - rest@.len(), orig.len() as int),
            out@.to_multiset() == orig.subrange(0, orig.len() - rest@.len()).to_multiset(),
        decreases rest@.len(),
    {
        let ghost consumed = orig.len() - rest@.len();
        let ghost rest0 = rest@;
        let e = rest.remove(0);
        proof {
            assert(e == orig[consumed]);
            assert(rest@ =~= orig.subrange(orig.len() - rest@.len(), orig.len() as int));
            assert(orig.subrange(0, consumed + 1) =~= orig.subrange(0, consumed).push(e));
        }
        let mut p: usize = 0;
        loop
            invariant
                p <= out.len(),
                forall|i: int| 0 <= i < p ==> key_le(out@[i], e),
            ensures
                p <= out.len(),
                forall|i: int| 0 <= i < p ==> key_le(out@[i], e),
                p < out.len() ==> !key_le(out@[p as int], e),
            decreases out.len() - p,
        {
            if p == out.len() {
                break ;
            }
            if !key_le_exec(&out[p], &e) {
                break ;
            }
            p = p + 1;
        }
        let ghost out0 = out@;
        out.insert(p, e);
        proof {
            key_le_props();
            out0.insert_ensures(p as int, e);
            assert(out@ == out0.insert(p as int, e));
            if (p as int) < out0.len() {
                assert(key_le(e, out0[p as int]));
            }
            assert forall|i: int, j: int| 0 <= i < j < out@.len() implies key_le(
                out@[i],
                out@[j],
            ) by {
                if i == p as int {
                    assert(out@[i] == e);
                    assert(out@[j] == out0[j - 1]);
                    if j - 1 > p as int {
                        assert(key_le(out0[p as int], out0[j - 1]));
                    }
                    assert(key_le(e, out0[j - 1]));
                } else if j == p as int {
                    assert(out@[i] == out0[i]);
                    assert(key_le(out0[i], e));
                } else if i < p as int && (p as int) < j {
                    assert(out@[i] == out0[i]);
                    assert(out@[j] == out0[j - 1]);
                    if i < j - 1 {
                        assert(key_le(out0[i], out0[j - 1]));
                    }
                } else if j < p as int {
                    assert(out@[i] == out0[i]);
                    assert(out@[j] == out0[j]);
                } else {
                    assert(i > p as int);
                    assert(out@[i] == out0[i - 1]);
                    assert(out@[j] == out0[j - 1]);
                }
            }
            vstd::seq_lib::to_multiset_insert(out0, p as int, e);
            assert(out@.to_multiset() == out0.to_multiset().insert(e));
            orig.subrange(0, consumed).to_multiset_ensures();
            assert(orig.subrange(0, consumed + 1).to_multiset() == orig.subrange(
                0,
                consumed,
            ).to_multiset().insert(e));
        }
    }
    proof {
        assert(orig.subrange(0, orig.len() as int) =~= orig);
    }
    out
}

proof fn lemma_eligible_push(s: Seq<SourceEntry>, e: SourceEntry)
    ensures
        eligible_of(s.push(e)) == (if entry_eligible(e) {
            eligible_of(s).push(e)
        } else {
            eligible_of(s)
        }),
{
    reveal_with_fuel(Seq::filter, 2);
    assert(s.push(e).drop_last() =~= s);
    assert(s.push(e).last() == e);
}

/// Keeps the eligible entries, in listing order.
fn filter_eligible(entries: Vec<SourceEntry>) -> (out: Vec<SourceEntry>)
    ensures
        out@ == eligible_of(entries@),
{

    let ghost orig = entries@;
    let mut rest = entries;
    let mut out: Vec<SourceEntry> = Vec::new();
    proof {
        assert(eligible_of(orig.subrange(0, 0)) =~= Seq::empty()) by {
            reveal_with_fuel(Seq::filter, 2);
        }
    }
    while rest.len() > 0
        invariant
            rest@.len() <= orig.len(),
            rest@ == orig.subrange(orig.len() - rest@.len(), orig.len() as int),
            out@ == eligible_of(orig.subrange(0, orig.len() - rest@.len())),
        decreases rest@.len(),
    {
        let ghost consumed = orig.len() - rest@.len();
        let e = rest.remove(0);
        proof {
            assert(e == orig[consumed]);
            assert(rest@ =~= orig.subrange(orig.len() - rest@.len(), orig.len() as int));
            assert(orig.subrange(0, consumed + 1) =~= orig.subrange(0, consumed).push(e));
            lemma_eligible_push(orig.subrange(0, consumed), e);
        }
        let keep = is_eligible(&e.name);
        proof {
            assert(keep == entry_eligible(e));
        }
        if keep {
            out.push(e);
        }
    }
    proof {
        assert(orig.subrange(0, orig.len() as int) =~= orig);
    }
    out
}

/// Law: a listing in which no entry is eligible — a directory holding
/// only non-image files — plans to nothing, so `plan_sources` refuses
/// it with the no-input error rather than running on.
pub proof fn lemma_no_eligible_no_input(entries: Seq<SourceEntry>)
    requires
        forall|i: int| 0 <= i < entries.len() ==> !entry_eligible(#[trigger] entries[i]),
    ensures
        eligible_of(entries).len() == 0,
    decreases entries.len(),
{
    if entries.len() == 0 {
        assert(eligible_of(entries) =~= Seq::empty()) by {
            reveal_with_fuel(Seq::filter, 1);
        }
    } else {
        lemma_no_eligible_no_input(entries.drop_last());
        assert(entries =~= entries.drop_last().push(entries.last()));
        lemma_eligible_push(entries.drop_last(), entries.last());
        assert(!entry_eligible(entries[entries.len() - 1]));
    }
}

/// The source enumerator's selection step, given the directory
/// listing: keeps the entries whose names carry an allow-listed image
/// extension, orders them ascending by modification time (an absent
/// timestamp sorting as earliest), and rejects an empty result.
pub fn plan_sources(entries: Vec<SourceEntry>) -> (r: Result<
    Vec<SourceEntry>,
    crate::errors::GifError,
>)
    ensures
        r is Ok <==> eligible_of(entries@).len() > 0,
        r is Err ==> r->Err_0 == crate::errors::GifError::NoInput,
        r is Ok ==> sorted_by_mtime(r->Ok_0@) && r->Ok_0@.to_multiset() == eligible_of(
            entries@,
        ).to_multiset(),
{
    let picked = filter_eligible(entries);
    if picked.len() == 0 {
        Err(crate::errors::GifError::NoInput)
    } else {
        proof {
            broadcast use vstd::seq_lib::group_to_multiset_ensures;
        }
        Ok(sort_by_mtime(picked))
    }
}

} // verus!
