//! Post-processing prompt templates: `{{transcript}}` and `{{noteN}}`
//! placeholders, their discovery and their substitution.
use vstd::prelude::*;

use crate::errors::SettingsError;
use crate::models::PostProcessTemplate;
use crate::paths::{path_join, path_join_spec, app_config_dir};
use crate::text::{chars_of, contains_spec, is_digit, occurs_at, occurs_at_exec, string_of};

verus! {

// ---------------------------------------------------------------------------
// Placeholder syntax
// ---------------------------------------------------------------------------

/// The characters `{{note`.
pub open spec fn note_open() -> Seq<char> {
    seq!['{', '{', 'n', 'o', 't', 'e']
}

/// The characters `note`.
pub open spec fn note_word() -> Seq<char> {
    seq!['n', 'o', 't', 'e']
}

/// The characters `}}`.
pub open spec fn close_braces() -> Seq<char> {
    seq!['}', '}']
}

/// The characters `{{`.
pub open spec fn open_braces() -> Seq<char> {
    seq!['{', '{']
}

/// The characters `{{transcript}}`.
pub open spec fn transcript_placeholder() -> Seq<char> {
    seq!['{', '{', 't', 'r', 'a', 'n', 's', 'c', 'r', 'i', 'p', 't', '}', '}']
}

/// `{{name}}`.
pub open spec fn braced(name: Seq<char>) -> Seq<char> {
    open_braces() + name + close_braces()
}

/// End of the run of ASCII digits in `s` that starts at `i`.
pub open spec fn digits_end(s: Seq<char>, i: int) -> int
    decreases s.len() - i,
{
    if 0 <= i < s.len() && is_digit(s[i]) {
        digits_end(s, i + 1)
    } else {
        i
    }
}

/// The slot named by a `{{noteN}}` placeholder that starts at `i`, if one does:
/// `{{note`, one or more ASCII digits, then `}}`.
pub open spec fn slot_at(s: Seq<char>, i: int) -> Option<Seq<char>> {
    if occurs_at(s, note_open(), i) {
        let d0 = i + 6;
        let d1 = digits_end(s, d0);
        if d1 > d0 && occurs_at(s, close_braces(), d1) {
            Some(note_word() + s.subrange(d0, d1))
        } else {
            None
        }
    } else {
        None
    }
}

/// Every slot name that some `{{noteN}}` placeholder of `s` names.
pub open spec fn slot_names(s: Seq<char>) -> Set<Seq<char>> {
    Set::new(|name: Seq<char>| exists|i: int| 0 <= i < s.len() && #[trigger] slot_at(s, i) == Some(name))
}

// ---------------------------------------------------------------------------
// Lexicographic order (the order `String` sorts by for these names)
// ---------------------------------------------------------------------------

/// `a` sorts strictly before `b`, comparing characters by code point.
pub open spec fn lex_lt(a: Seq<char>, b: Seq<char>) -> bool
    decreases a.len(),
{
    if a.len() == 0 {
        b.len() > 0
    } else if b.len() == 0 {
        false
    } else if (a[0] as int) < (b[0] as int) {
        true
    } else if a[0] == b[0] {
        lex_lt(a.drop_first(), b.drop_first())
    } else {
        false
    }
}

/// Strictly ascending, hence free of duplicates.
pub open spec fn strictly_sorted(s: Seq<Seq<char>>) -> bool {
    forall|i: int, j: int| 0 <= i < j < s.len() ==> lex_lt(#[trigger] s[i], #[trigger] s[j])
}

/// Two strictly sorted lists of the same names are the same list: the
/// sorted slot list of a prompt is determined by its set of slot names.
pub proof fn law_sorted_names_are_unique(a: Seq<Seq<char>>, b: Seq<Seq<char>>)
    requires
        strictly_sorted(a),
        strictly_sorted(b),
        a.to_set() == b.to_set(),
    ensures
        a == b,
    decreases a.len(),
{
    if a.len() == 0 {
        if b.len() > 0 {
            assert(b.to_set().contains(b[0]));
        }
        assert(a =~= b);
    } else {
        assert(a.to_set().contains(a[0]));
        assert(b.contains(a[0]));
        if b.len() == 0 {
            assert(false);
        }
        assert(b.to_set().contains(b[0]));
        assert(a.contains(b[0]));
        let i = choose|i: int| 0 <= i < a.len() && a[i] == b[0];
        let j = choose|j: int| 0 <= j < b.len() && b[j] == a[0];
        if a[0] != b[0] {
            assert(i > 0 && j > 0);
            assert(lex_lt(a[0], a[i]));
            assert(lex_lt(b[0], b[j]));
            lemma_lex_asymmetric(a[0], b[0]);
        }
        let a1 = a.drop_first();
        let b1 = b.drop_first();
        assert(strictly_sorted(a1)) by {
            assert forall|x: int, y: int| 0 <= x < y < a1.len() implies lex_lt(#[trigger] a1[x], #[trigger] a1[y]) by {
                assert(a1[x] == a[x + 1] && a1[y] == a[y + 1]);
            }
        }
        assert(strictly_sorted(b1)) by {
            assert forall|x: int, y: int| 0 <= x < y < b1.len() implies lex_lt(#[trigger] b1[x], #[trigger] b1[y]) by {
                assert(b1[x] == b[x + 1] && b1[y] == b[y + 1]);
            }
        }
        assert forall|n: Seq<char>| a1.to_set().contains(n) <==> b1.to_set().contains(n) by {
            if a1.contains(n) {
                let k = choose|k: int| 0 <= k < a1.len() && a1[k] == n;
                assert(a[k + 1] == n);
                assert(lex_lt(a[0], a[k + 1]));
                lemma_lex_irreflexive(n);
                assert(a.to_set().contains(n));
                assert(b.contains(n));
                let m = choose|m: int| 0 <= m < b.len() && b[m] == n;
                assert(m != 0);
                assert(b1[m - 1] == n);
                assert(b1.contains(n));
            }
            if b1.contains(n) {
                let k = choose|k: int| 0 <= k < b1.len() && b1[k] == n;
                assert(b[k + 1] == n);
                assert(lex_lt(b[0], b[k + 1]));
                lemma_lex_irreflexive(n);
                assert(b.to_set().contains(n));
                assert(a.contains(n));
                let m = choose|m: int| 0 <= m < a.len() && a[m] == n;
                assert(m != 0);
                assert(a1[m - 1] == n);
                assert(a1.contains(n));
            }
        }
        assert(a1.to_set() =~= b1.to_set());
        law_sorted_names_are_unique(a1, b1);
        assert(a =~= seq![a[0]] + a1);
        assert(b =~= seq![b[0]] + b1);
    }
}

pub proof fn lemma_lex_irreflexive(a: Seq<char>)
    ensures
        !lex_lt(a, a),
    decreases a.len(),
{
    if a.len() > 0 {
        assert(a.drop_first() == a.drop_first());
        lemma_lex_irreflexive(a.drop_first());
    }
}

pub proof fn lemma_lex_total(a: Seq<char>, b: Seq<char>)
    ensures
        a == b || lex_lt(a, b) || lex_lt(b, a),
    decreases a.len(),
{
    if a.len() > 0 && b.len() > 0 && a[0] == b[0] {
        lemma_lex_total(a.drop_first(), b.drop_first());
        if a.drop_first() == b.drop_first() {
            assert(a =~= seq![a[0]] + a.drop_first());
            assert(b =~= seq![b[0]] + b.drop_first());
        }
    }
    if a.len() == 0 && b.len() == 0 {
        assert(a =~= b);
    }
}

pub proof fn lemma_lex_transitive(a: Seq<char>, b: Seq<char>, c: Seq<char>)
    requires
        lex_lt(a, b),
        lex_lt(b, c),
    ensures
        lex_lt(a, c),
    decreases a.len(),
{
    if a.len() > 0 && b.len() > 0 && c.len() > 0 && a[0] == b[0] && b[0] == c[0] {
        lemma_lex_transitive(a.drop_first(), b.drop_first(), c.drop_first());
    }
}

pub proof fn lemma_lex_asymmetric(a: Seq<char>, b: Seq<char>)
    requires
        lex_lt(a, b),
    ensures
        !lex_lt(b, a),
{
    if lex_lt(b, a) {
        lemma_lex_transitive(a, b, a);
        lemma_lex_irreflexive(a);
    }
}

/// `lex_lt` on character vectors.
pub(crate) fn lex_lt_exec(a: &Vec<char>, b: &Vec<char>) -> (r: bool)
    ensures
        r == lex_lt(a@, b@),
{
    let mut i: usize = 0;
    assert(a@.subrange(0, a@.len() as int) =~= a@);
    assert(b@.subrange(0, b@.len() as int) =~= b@);
    while i < a.len() && i < b.len() && a[i] == b[i]
        invariant
            i <= a@.len(),
            i <= b@.len(),
            lex_lt(a@, b@) == lex_lt(a@.subrange(i as int, a@.len() as int), b@.subrange(i as int, b@.len() as int)),
        decreases a@.len() - i,
    {
        let ghost sa = a@.subrange(i as int, a@.len() as int);
        let ghost sb = b@.subrange(i as int, b@.len() as int);
        assert(sa.drop_first() =~= a@.subrange(i + 1, a@.len() as int));
        assert(sb.drop_first() =~= b@.subrange(i + 1, b@.len() as int));
        i = i + 1;
    }
    let ghost sa = a@.subrange(i as int, a@.len() as int);
    let ghost sb = b@.subrange(i as int, b@.len() as int);
    if i == a.len() {
        i < b.len()
    } else if i == b.len() {
        false
    } else {
        assert(sa[0] == a@[i as int] && sb[0] == b@[i as int]);
        a[i] < b[i]
    }
}

// ---------------------------------------------------------------------------
// Executable pieces
// ---------------------------------------------------------------------------

fn note_open_exec() -> (v: Vec<char>)
    ensures
        v@ == note_open(),
{
    let v = vec!['{', '{', 'n', 'o', 't', 'e'];
    assert(v@ =~= note_open());
    v
}

fn close_braces_exec() -> (v: Vec<char>)
    ensures
        v@ == close_braces(),
{
    let v = vec!['}', '}'];
    assert(v@ =~= close_braces());
    v
}

/// Views of a list of character vectors.
pub open spec fn views(v: Seq<Vec<char>>) -> Seq<Seq<char>> {
    v.map_values(|x: Vec<char>| x@)
}

/// Views of a list of strings.
pub open spec fn string_views(v: Seq<String>) -> Seq<Seq<char>> {
    v.map_values(|x: String| x@)
}

fn digits_end_exec(v: &Vec<char>, from: usize) -> (r: usize)
    requires
        from <= v@.len(),
    ensures
        r == digits_end(v@, from as int),
        from <= r <= v@.len(),
{
    let mut j = from;
    while j < v.len() && '0' <= v[j] && v[j] <= '9'
        invariant
            from <= j <= v@.len(),
            digits_end(v@, from as int) == digits_end(v@, j as int),
        decreases v@.len() - j,
    {
        j = j + 1;
    }
    j
}

fn slot_at_exec(v: &Vec<char>, open: &Vec<char>, close: &Vec<char>, i: usize) -> (r: Option<Vec<char>>)
    requires
        open@ == note_open(),
        close@ == close_braces(),
    ensures
        r matches Some(x) ==> slot_at(v@, i as int) == Some(x@),
        r is None ==> slot_at(v@, i as int) is None,
{
    if !occurs_at_exec(v, open, i) {
        return None;
    }
    assert(open@.len() == 6);
    assert(i + 6 <= v.len());
    let d0 = i + 6;
    let d1 = digits_end_exec(v, d0);
    if d1 > d0 && occurs_at_exec(v, close, d1) {
        let mut name = vec!['n', 'o', 't', 'e'];
        assert(name@ =~= note_word());
        let mut k = d0;
        while k < d1
            invariant
                d0 <= k <= d1 <= v@.len(),
                name@ == note_word() + v@.subrange(d0 as int, k as int),
            decreases d1 - k,
        {
            name.push(v[k]);
            k = k + 1;
            assert(name@ =~= note_word() + v@.subrange(d0 as int, k as int));
        }
        Some(name)
    } else {
        None
    }
}

/// Inserts `x` into a strictly sorted list unless it is already there.
fn insert_sorted(list: &mut Vec<Vec<char>>, x: Vec<char>)
    requires
        strictly_sorted(views(old(list)@)),
    ensures
        strictly_sorted(views(final(list)@)),
        forall|n: Seq<char>|
            views(final(list)@).contains(n) <==> (views(old(list)@).contains(n) || n == x@),
{
    let ghost s = views(list@);
    let mut p: usize = 0;
    while p < list.len() && lex_lt_exec(&list[p], &x)
        invariant
            s == views(list@),
            p <= list@.len(),
            forall|k: int| 0 <= k < p ==> lex_lt(#[trigger] s[k], x@),
        decreases list@.len() - p,
    {
        p = p + 1;
    }
    if p < list.len() {
        if !lex_lt_exec(&x, &list[p]) {
            proof {
                lemma_lex_total(s[p as int], x@);
            }
            assert(s[p as int] == x@);
            assert(s.contains(x@));
            return;
        }
    }
    let ghost xv = x@;
    list.insert(p, x);
    let ghost t = views(list@);
    assert(t =~= s.insert(p as int, xv));
    assert forall|i: int, j: int| 0 <= i < j < t.len() implies lex_lt(#[trigger] t[i], #[trigger] t[j]) by {
        if j < p {
        } else if j == p {
            assert(t[i] == s[i]);
        } else if i < p {
            assert(t[i] == s[i]);
            assert(t[j] == s[j - 1]);
            assert(lex_lt(s[i], xv));
            if p < s.len() {
                assert(lex_lt(xv, s[p as int]));
                if j - 1 > p {
                    lemma_lex_transitive(xv, s[p as int], s[j - 1]);
                }
                lemma_lex_transitive(s[i], xv, s[j - 1]);
            }
        } else if i == p {
            assert(t[j] == s[j - 1]);
            assert(lex_lt(xv, s[p as int]));
            if j - 1 > p {
                lemma_lex_transitive(xv, s[p as int], s[j - 1]);
            }
        } else {
            assert(t[i] == s[i - 1]);
            assert(t[j] == s[j - 1]);
        }
    }
    assert forall|n: Seq<char>| t.contains(n) <==> (s.contains(n) || n == xv) by {
        if t.contains(n) {
            let k = choose|k: int| 0 <= k < t.len() && t[k] == n;
            if k < p {
                assert(s[k] == n);
            } else if k > p {
                assert(s[k - 1] == n);
            }
        }
        if s.contains(n) {
            let k = choose|k: int| 0 <= k < s.len() && s[k] == n;
            if k < p {
                assert(t[k] == n);
            } else {
                assert(t[k + 1] == n);
            }
        }
        if n == xv {
            assert(t[p as int] == n);
        }
    }
}

/// Sorted, de-duplicated names of the `{{noteN}}` slots a prompt refers to:
/// `{{note` followed by one or more ASCII digits and then `}}`, named `noteN`.
pub fn extract_note_slots(prompt: &str) -> (r: Vec<String>)
    ensures
        strictly_sorted(string_views(r@)),
        string_views(r@).to_set() == slot_names(prompt@),
{
    let v = chars_of(prompt);
    let open = note_open_exec();
    let close = close_braces_exec();
    let mut list: Vec<Vec<char>> = Vec::new();
    let mut i: usize = 0;
    while i < v.len()
        invariant
            v@ == prompt@,
            open@ == note_open(),
            close@ == close_braces(),
            i <= v@.len(),
            strictly_sorted(views(list@)),
            forall|n: Seq<char>|
                views(list@).contains(n) <==> exists|j: int|
                    0 <= j < i && #[trigger] slot_at(v@, j) == Some(n),
        decreases v@.len() - i,
    {
        let ghost before = views(list@);
        let found = slot_at_exec(&v, &open, &close, i);
        match found {
            Some(name) => {
                let ghost nv = name@;
                insert_sorted(&mut list, name);
                assert forall|n: Seq<char>|
                    views(list@).contains(n) <==> exists|j: int|
                        0 <= j < i + 1 && #[trigger] slot_at(v@, j) == Some(n) by {
                    if n == nv {
                        assert(slot_at(v@, i as int) == Some(n));
                    }
                    if exists|j: int| 0 <= j < i + 1 && #[trigger] slot_at(v@, j) == Some(n) {
                        let j = choose|j: int| 0 <= j < i + 1 && #[trigger] slot_at(v@, j) == Some(n);
                        if j < i {
                            assert(before.contains(n));
                        }
                    }
                }
            },
            None => {
                assert forall|n: Seq<char>|
                    views(list@).contains(n) <==> exists|j: int|
                        0 <= j < i + 1 && #[trigger] slot_at(v@, j) == Some(n) by {
                    if exists|j: int| 0 <= j < i + 1 && #[trigger] slot_at(v@, j) == Some(n) {
                        let j = choose|j: int| 0 <= j < i + 1 && #[trigger] slot_at(v@, j) == Some(n);
                        assert(j < i);
                    }
                }
            },
        }
        i = i + 1;
    }
    let mut out: Vec<String> = Vec::new();
    let mut k: usize = 0;
    while k < list.len()
        invariant
            k <= list@.len(),
            out@.len() == k,
            string_views(out@) == views(list@).subrange(0, k as int),
        decreases list@.len() - k,
    {
        let sv = string_of(&list[k]);
        let ghost svv = sv@;
        out.push(sv);
        assert(out@[k as int]@ == svv);
        k = k + 1;
        assert(string_views(out@) =~= views(list@).subrange(0, k as int));
    }
    assert(string_views(out@) =~= views(list@));
    assert(string_views(out@).to_set() =~= slot_names(prompt@));
    out
}

// ---------------------------------------------------------------------------
// Substitution
// ---------------------------------------------------------------------------

/// `str::replace(pat, rep)` for a non-empty pattern: every occurrence of `pat`,
/// found left to right without overlap, is replaced by `rep`.
pub open spec fn replace_spec(s: Seq<char>, pat: Seq<char>, rep: Seq<char>) -> Seq<char>
    decreases s.len(),
{
    if s.len() == 0 {
        s
    } else if pat.len() > 0 && occurs_at(s, pat, 0) {
        rep + replace_spec(s.subrange(pat.len() as int, s.len() as int), pat, rep)
    } else {
        seq![s[0]] + replace_spec(s.drop_first(), pat, rep)
    }
}

/// Replaces every occurrence of `pat` in `s` by `rep`.
pub fn replace_chars(s: &Vec<char>, pat: &Vec<char>, rep: &Vec<char>) -> (r: Vec<char>)
    requires
        pat@.len() > 0,
    ensures
        r@ == replace_spec(s@, pat@, rep@),
{
    let mut out: Vec<char> = Vec::new();
    let mut i: usize = 0;
    assert(s@.subrange(0, s@.len() as int) =~= s@);
    while i < s.len()
        invariant
            pat@.len() > 0,
            i <= s@.len(),
            replace_spec(s@, pat@, rep@) == out@ + replace_spec(
                s@.subrange(i as int, s@.len() as int),
                pat@,
                rep@,
            ),
        decreases s@.len() - i,
    {
        let ghost t = s@.subrange(i as int, s@.len() as int);
        if occurs_at_exec(s, pat, i) {
            assert(t.subrange(0, pat@.len() as int) =~= s@.subrange(i as int, i + pat@.len()));
            assert(occurs_at(t, pat@, 0));
            assert(t.subrange(pat@.len() as int, t.len() as int) =~= s@.subrange(
                i + pat@.len(),
                s@.len() as int,
            ));
            let mut k: usize = 0;
            let ghost before = out@;
            while k < rep.len()
                invariant
                    k <= rep@.len(),
                    out@ == before + rep@.subrange(0, k as int),
                decreases rep@.len() - k,
            {
                out.push(rep[k]);
                k = k + 1;
                assert(out@ =~= before + rep@.subrange(0, k as int));
            }
            assert(rep@.subrange(0, rep@.len() as int) =~= rep@);
            assert(out@ + replace_spec(s@.subrange(i + pat@.len(), s@.len() as int), pat@, rep@)
                =~= before + (rep@ + replace_spec(s@.subrange(i + pat@.len(), s@.len() as int), pat@, rep@)));
            i = i + pat.len();
        } else {
            proof {
                if occurs_at(t, pat@, 0) {
                    assert(t.subrange(0, pat@.len() as int) =~= s@.subrange(i as int, i + pat@.len()));
                }
            }
            assert(t.drop_first() =~= s@.subrange(i + 1, s@.len() as int));
            let ghost before = out@;
            out.push(s[i]);
            assert(out@ + replace_spec(s@.subrange(i + 1, s@.len() as int), pat@, rep@)
                =~= before + (seq![t[0]] + replace_spec(t.drop_first(), pat@, rep@)));
            i = i + 1;
        }
    }
    assert(out@ + replace_spec(s@.subrange(i as int, s@.len() as int), pat@, rep@) =~= out@);
    out
}

/// The prompt after replacing each `{{slot}}` of `notes`, in order, by its text.
pub open spec fn apply_notes(s: Seq<char>, notes: Seq<(Seq<char>, Seq<char>)>) -> Seq<char>
    decreases notes.len(),
{
    if notes.len() == 0 {
        s
    } else {
        apply_notes(replace_spec(s, braced(notes[0].0), notes[0].1), notes.drop_first())
    }
}

/// Views of `(slot name, note text)` pairs.
pub open spec fn note_pairs(v: Seq<(String, String)>) -> Seq<(Seq<char>, Seq<char>)> {
    v.map_values(|p: (String, String)| (p.0@, p.1@))
}

/// The text `render_template` builds before it checks for unresolved slots.
/// No slot name appears twice among the note contents (they come from a
/// map from slot name to content).
pub open spec fn distinct_slot_keys(notes: Seq<(Seq<char>, Seq<char>)>) -> bool {
    forall|i: int, j: int| 0 <= i < j < notes.len() ==> #[trigger] notes[i].0 != #[trigger] notes[j].0
}

pub open spec fn rendered_spec(
    prompt: Seq<char>,
    transcript: Seq<char>,
    notes: Seq<(Seq<char>, Seq<char>)>,
) -> Seq<char> {
    apply_notes(replace_spec(prompt, transcript_placeholder(), transcript), notes)
}

/// `{{a}}, {{b}}, ...` for the names in order.
pub open spec fn join_braced(names: Seq<Seq<char>>) -> Seq<char>
    decreases names.len(),
{
    if names.len() == 0 {
        Seq::empty()
    } else if names.len() == 1 {
        braced(names[0])
    } else {
        join_braced(names.drop_last()) + seq![',', ' '] + braced(names.last())
    }
}

fn push_chars(out: &mut Vec<char>, v: &Vec<char>)
    ensures
        final(out)@ == old(out)@ + v@,
{
    let mut k: usize = 0;
    while k < v.len()
        invariant
            k <= v@.len(),
            out@ == old(out)@ + v@.subrange(0, k as int),
        decreases v@.len() - k,
    {
        out.push(v[k]);
        k = k + 1;
        assert(out@ =~= old(out)@ + v@.subrange(0, k as int));
    }
    assert(v@.subrange(0, v@.len() as int) =~= v@);
}

fn braced_exec(name: &Vec<char>) -> (r: Vec<char>)
    ensures
        r@ == braced(name@),
{
    let mut r = vec!['{', '{'];
    push_chars(&mut r, name);
    r.push('}');
    r.push('}');
    assert(r@ =~= braced(name@));
    r
}

/// Replaces `{{transcript}}` by the transcript and each `{{slot}}` of
/// `note_contents` by the note's text, in the order given; fails with
/// `Unresolved note slots: {{noteA}}, {{noteB}}` (sorted) when `{{noteN}}`
/// placeholders remain.
pub fn render_template(
    prompt: &str,
    transcript_text: &str,
    note_contents: &Vec<(String, String)>,
) -> (r: Result<String, String>)
    requires
        distinct_slot_keys(note_pairs(note_contents@)),
    ensures
        ({
            let rendered = rendered_spec(prompt@, transcript_text@, note_pairs(note_contents@));
            match r {
                Ok(text) => text@ == rendered && slot_names(rendered) == Set::<Seq<char>>::empty(),
                Err(message) => slot_names(rendered) != Set::<Seq<char>>::empty() && exists|
                    names: Seq<Seq<char>>,
                |
                    #![trigger join_braced(names)]
                    strictly_sorted(names) && names.to_set() == slot_names(rendered) && message@
                        == "Unresolved note slots: "@ + join_braced(names),
            }
        }),
{
    let p = chars_of(prompt);
    let t = chars_of(transcript_text);
    let pat = vec!['{', '{', 't', 'r', 'a', 'n', 's', 'c', 'r', 'i', 'p', 't', '}', '}'];
    assert(pat@ =~= transcript_placeholder());
    let mut cur = replace_chars(&p, &pat, &t);
    let ghost pairs = note_pairs(note_contents@);
    let mut k: usize = 0;
    assert(pairs.subrange(0, pairs.len() as int) =~= pairs);
    while k < note_contents.len()
        invariant
            k <= note_contents@.len(),
            pairs == note_pairs(note_contents@),
            rendered_spec(prompt@, transcript_text@, pairs) == apply_notes(
                cur@,
                pairs.subrange(k as int, pairs.len() as int),
            ),
        decreases note_contents@.len() - k,
    {
        let ghost rest = pairs.subrange(k as int, pairs.len() as int);
        let name = chars_of(note_contents[k].0.as_str());
        let content = chars_of(note_contents[k].1.as_str());
        let placeholder = braced_exec(&name);
        assert(rest[0] == (name@, content@));
        assert(rest.drop_first() =~= pairs.subrange(k + 1, pairs.len() as int));
        cur = replace_chars(&cur, &placeholder, &content);
        k = k + 1;
    }
    assert(pairs.subrange(k as int, pairs.len() as int).len() == 0);
    let rendered = string_of(&cur);
    let unresolved = extract_note_slots(rendered.as_str());
    if unresolved.len() == 0 {
        assert(string_views(unresolved@).to_set() =~= Set::<Seq<char>>::empty());
        Ok(rendered)
    } else {
        let ghost names = string_views(unresolved@);
        assert(names.to_set().contains(names[0]));
        let mut message = String::new();
        message.append("Unresolved note slots: ");
        let ghost head = message@;
        let mut j: usize = 0;
        while j < unresolved.len()
            invariant
                names == string_views(unresolved@),
                j <= unresolved@.len(),
                message@ == head + join_braced(names.subrange(0, j as int)),
            decreases unresolved@.len() - j,
        {
            if j > 0 {
                message.append(", ");
            }
            let n = chars_of(unresolved[j].as_str());
            let b = braced_exec(&n);
            let bs = string_of(&b);
            message.append(bs.as_str());
            proof {
                let pre = names.subrange(0, j as int);
                let post = names.subrange(0, j + 1);
                assert(post.drop_last() =~= pre);
                assert(post.last() == names[j as int]);
                if j > 0 {
                    reveal_strlit(", ");
                    assert(", "@ =~= seq![',', ' ']);
                }
                assert(message@ =~= head + join_braced(post));
            }
            j = j + 1;
        }
        assert(names.subrange(0, j as int) =~= names);
        Err(message)
    }
}

/// The first template whose id is `template_id`.
pub fn find_template_by_id<'a>(
    templates: &'a [PostProcessTemplate],
    template_id: &str,
) -> (r: Option<&'a PostProcessTemplate>)
    ensures
        r matches Some(t) ==> exists|i: int|
            0 <= i < templates@.len() && templates@[i] == *t && t.id@ == template_id@ && forall|
                k: int,
            |
                0 <= k < i ==> (#[trigger] templates@[k]).id@ != template_id@,
        r is None ==> forall|k: int|
            0 <= k < templates@.len() ==> (#[trigger] templates@[k]).id@ != template_id@,
{
    let wanted = chars_of(template_id);
    let mut i: usize = 0;
    while i < templates.len()
        invariant
            i <= templates@.len(),
            wanted@ == template_id@,
            forall|k: int| 0 <= k < i ==> (#[trigger] templates@[k]).id@ != template_id@,
        decreases templates@.len() - i,
    {
        let id = chars_of(templates[i].id.as_str());
        if seq_eq(&id, &wanted) {
            return Some(&templates[i]);
        }
        i = i + 1;
    }
    None
}

/// Whether two character vectors are equal.
pub fn seq_eq(a: &Vec<char>, b: &Vec<char>) -> (r: bool)
    ensures
        r == (a@ == b@),
{
    if a.len() != b.len() {
        return false;
    }
    let mut i: usize = 0;
    while i < a.len()
        invariant
            a@.len() == b@.len(),
            i <= a@.len(),
            forall|k: int| 0 <= k < i ==> a@[k] == b@[k],
        decreases a@.len() - i,
    {
        if a[i] != b[i] {
            return false;
        }
        i = i + 1;
    }
    assert(a@ =~= b@);
    true
}

/// `prefix` followed by `{{transcript}}`.
fn prompt_with_transcript(prefix: &str) -> (r: String)
    ensures
        r@ == prefix@ + transcript_placeholder(),
        contains_spec(r@, transcript_placeholder()),
{
    let mut r = prefix.to_owned();
    r.append("{{transcript}}");
    proof {
        reveal_strlit("{{transcript}}");
        assert("{{transcript}}"@ =~= transcript_placeholder());
        assert(r@.subrange(prefix@.len() as int, r@.len() as int) =~= transcript_placeholder());
        assert(occurs_at(r@, transcript_placeholder(), prefix@.len() as int));
    }
    r
}

fn template(id: &str, name: &str, prompt: String) -> (t: PostProcessTemplate)
    ensures
        t.id@ == id@,
        t.name@ == name@,
        t.prompt@ == prompt@,
{
    PostProcessTemplate { id: id.to_owned(), name: name.to_owned(), prompt }
}

/// The three built-in templates, in order: clean-up, meeting notes and
/// summary; each prompt ends in `{{transcript}}`.
pub open spec fn is_default_templates(r: Seq<PostProcessTemplate>) -> bool {
    &&& r.len() == 3
    &&& r[0].id@ == "builtin-cleanup"@
    &&& r[0].name@ == "Clean up transcript"@
    &&& r[0].prompt@ == "Clean up the following transcript. Fix grammar, remove filler words, and improve readability while preserving the original meaning.\n\n"@ + transcript_placeholder()
    &&& r[1].id@ == "builtin-meeting-notes"@
    &&& r[1].name@ == "Meeting notes"@
    &&& r[1].prompt@ == "Convert the following transcript into structured meeting notes with key points, action items, and decisions.\n\n"@ + transcript_placeholder()
    &&& r[2].id@ == "builtin-summary"@
    &&& r[2].name@ == "Summary"@
    &&& r[2].prompt@ == "Write a concise summary of the following transcript.\n\n"@ + transcript_placeholder()
}

/// The built-in templates.
pub fn default_templates() -> (r: Vec<PostProcessTemplate>)
    ensures
        is_default_templates(r@),
        forall|i: int| 0 <= i < r@.len() ==> contains_spec(#[trigger] r@[i].prompt@, transcript_placeholder()),
{
    let mut r: Vec<PostProcessTemplate> = Vec::new();
    r.push(template(
        "builtin-cleanup",
        "Clean up transcript",
        prompt_with_transcript("Clean up the following transcript. Fix grammar, remove filler words, and improve readability while preserving the original meaning.\n\n"),
    ));
    r.push(template(
        "builtin-meeting-notes",
        "Meeting notes",
        prompt_with_transcript("Convert the following transcript into structured meeting notes with key points, action items, and decisions.\n\n"),
    ));
    r.push(template(
        "builtin-summary",
        "Summary",
        prompt_with_transcript("Write a concise summary of the following transcript.\n\n"),
    ));
    r
}

/// Where the post-processing templates are kept: one JSON file.
#[derive(Debug, Clone)]
pub struct TemplateStore {
    file_path: String,
}

impl View for TemplateStore {
    type V = Seq<char>;

    /// The templates file.
    closed spec fn view(&self) -> Seq<char> {
        self.file_path@
    }
}

impl TemplateStore {
    /// The store for `templates.json` in the app's configuration directory.
    pub fn new() -> (r: Result<Self, SettingsError>)
        ensures
            r is Err ==> r matches Err(SettingsError::MissingConfigDir),
            r matches Ok(store) ==> exists|dir: Seq<char>| store@ == path_join_spec(dir, "templates.json"@),
    {
        let dir = app_config_dir();
        Self::from_config_dir(dir)
    }

    /// The store for `templates.json` in `config_dir`; without a
    /// configuration directory there is none.
    pub fn from_config_dir(config_dir: Option<String>) -> (r: Result<Self, SettingsError>)
        ensures
            config_dir is None ==> r matches Err(SettingsError::MissingConfigDir),
            config_dir matches Some(d) ==> (r matches Ok(store) && store@ == path_join_spec(
                d@,
                "templates.json"@,
            )),
    {
        match config_dir {
            None => Err(SettingsError::MissingConfigDir),
            Some(d) => Ok(TemplateStore { file_path: path_join(d.as_str(), "templates.json") }),
        }
    }

    /// The store for the given file.
    pub fn with_path(path: String) -> (r: Self)
        ensures
            r@ == path@,
    {
        TemplateStore { file_path: path }
    }

    /// The templates file.
    pub fn file_path(&self) -> (r: &str)
        ensures
            r@ == self@,
    {
        self.file_path.as_str()
    }

    /// The templates to use given what reading the file gave: the stored
    /// list when the file was read and parsed, the built-in templates when
    /// it is missing or malformed.
    pub fn load(&self, stored: Option<Vec<PostProcessTemplate>>) -> (r: Vec<PostProcessTemplate>)
        ensures
            stored matches Some(v) ==> r@ == v@,
            stored is None ==> is_default_templates(r@),
    {
        match stored {
            Some(v) => v,
            None => default_templates(),
        }
    }
}

} // verus!
