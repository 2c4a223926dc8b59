//! The character table: one row per grade and term, each row the distinct
//! characters of its source text in teaching order, and the lookup by grade
//! and term.
use vstd::prelude::*;

use crate::rows::{lemma_source_row_nonempty, source_row, term_text, TERM_COUNT};

verus! {

/// The distinct characters of `s`, each kept at its first occurrence, in the
/// order of `s`.
pub open spec fn distinct_chars(s: Seq<char>) -> Seq<char>
    decreases s.len(),
{
    if s.len() == 0 {
        Seq::empty()
    } else {
        let prev = distinct_chars(s.drop_last());
        if prev.contains(s.last()) {
            prev
        } else {
            prev.push(s.last())
        }
    }
}

/// Each character as a string of its own.
pub open spec fn as_strings(cs: Seq<char>) -> Seq<Seq<char>> {
    cs.map_values(|c: char| seq![c])
}

/// Row `i` of the table: the distinct characters of source row `i`, each as
/// a one-character string.
pub open spec fn curriculum_row(i: int) -> Seq<Seq<char>> {
    as_strings(distinct_chars(source_row(i)))
}

/// The whole table, in row order.
pub open spec fn curriculum() -> Seq<Seq<Seq<char>>> {
    Seq::new(TERM_COUNT as nat, |i: int| curriculum_row(i))
}

/// Whether `grade` and `term` name a row: grades 1 to 6, terms 1 and 2.
pub open spec fn valid_grade_term(grade: int, term: int) -> bool {
    1 <= grade <= 6 && 1 <= term <= 2
}

/// The row that grade `grade`, term `term` is stored at.
pub open spec fn row_index(grade: int, term: int) -> int {
    (grade - 1) * 2 + (term - 1)
}

/// What a lookup of `grade` and `term` answers: the row of that grade and
/// term, or nothing where they name no row.
pub open spec fn chars_of(grade: int, term: int) -> Seq<Seq<char>> {
    if valid_grade_term(grade, term) {
        curriculum_row(row_index(grade, term))
    } else {
        Seq::empty()
    }
}

/// A valid grade and term name row `(grade - 1) * 2 + (term - 1)` of the
/// table, and looking them up gives that row: a non-empty row with one entry
/// for each distinct character of its source text.
pub proof fn lemma_valid_lookup(grade: int, term: int)
    requires
        valid_grade_term(grade, term),
    ensures
        0 <= row_index(grade, term) < TERM_COUNT,
        chars_of(grade, term) == curriculum()[row_index(grade, term)],
        chars_of(grade, term).len() == source_row(row_index(grade, term)).to_set().len(),
        chars_of(grade, term).len() > 0,
{
    let i = row_index(grade, term);
    lemma_source_row_nonempty(i);
    lemma_distinct_chars(source_row(i));
}

/// A grade or term out of range looks up nothing.
pub proof fn lemma_invalid_lookup(grade: int, term: int)
    requires
        !valid_grade_term(grade, term),
    ensures
        chars_of(grade, term).len() == 0,
{
}

/// The distinct characters of `s` hold each character of `s` exactly once.
pub proof fn lemma_distinct_chars(s: Seq<char>)
    ensures
        distinct_chars(s).no_duplicates(),
        distinct_chars(s).to_set() == s.to_set(),
        distinct_chars(s).len() == s.to_set().len(),
        s.len() > 0 ==> distinct_chars(s).len() > 0,
    decreases s.len(),
{
    if s.len() == 0 {
        assert(s.to_set() =~= Set::empty());
        assert(distinct_chars(s).to_set() =~= Set::empty());
    } else {
        let init = s.drop_last();
        let prev = distinct_chars(init);
        lemma_distinct_chars(init);
        assert(s =~= init.push(s.last()));
        assert(s.to_set() =~= init.to_set().insert(s.last())) by {
            init.lemma_push_to_set_commute(s.last());
        }
        if prev.contains(s.last()) {
            assert(prev.to_set().contains(s.last()));
        } else {
            prev.lemma_push_to_set_commute(s.last());
            assert forall|a: int, b: int|
                0 <= a < b < prev.push(s.last()).len() implies prev.push(s.last())[a]
                != prev.push(s.last())[b] by {
                if b == prev.len() {
                    assert(prev.contains(prev[a]));
                }
            }
        }
        distinct_chars(s).unique_seq_to_set();
    }
}

/// The character content of each string of `v`.
pub open spec fn strings_view(v: Seq<String>) -> Seq<Seq<char>> {
    v.map_values(|s: String| s@)
}

/// Relies on `ToString` for `char`: the string of that one character.
#[verifier::external_body]
fn char_string(c: char) -> (r: String)
    ensures
        r@ == seq![c],
{
    c.to_string()
}

/// Whether `c` occurs in `v`.
fn contains_char(v: &Vec<char>, c: char) -> (r: bool)
    ensures
        r == v@.contains(c),
{
    let mut i: usize = 0;
    while i < v.len()
        invariant
            i <= v.len(),
            forall|j: int| 0 <= j < i ==> v@[j] != c,
        decreases v.len() - i,
    {
        if v[i] == c {
            return true;
        }
        i = i + 1;
    }
    false
}

/// The distinct characters of `text`, in order of first occurrence, each as
/// a one-character string.
pub fn distinct_strings(text: &str) -> (r: Vec<String>)
    ensures
        strings_view(r@) == as_strings(distinct_chars(text@)),
{
    let n = text.unicode_len();
    let mut seen: Vec<char> = Vec::new();
    let mut out: Vec<String> = Vec::new();
    let mut i: usize = 0;
    while i < n
        invariant
            n == text@.len(),
            i <= n,
            seen@ == distinct_chars(text@.take(i as int)),
            strings_view(out@) == as_strings(seen@),
        decreases n - i,
    {
        let c = text.get_char(i);
        assert(text@.take(i as int + 1).drop_last() =~= text@.take(i as int));
        if !contains_char(&seen, c) {
            let ghost prev = strings_view(out@);
            assert(prev.len() == seen@.len());
            seen.push(c);
            out.push(char_string(c));
            assert forall|k: int| 0 <= k < out.len() implies strings_view(out@)[k] == as_strings(
                seen@,
            )[k] by {
                if k < prev.len() {
                    assert(strings_view(out@)[k] == prev[k]);
                }
            }
            assert(strings_view(out@) =~= as_strings(seen@));
        }
        i = i + 1;
    }
    assert(text@.take(n as int) =~= text@);
    out
}

/// A copy of `v`.
fn copy_strings(v: &Vec<String>) -> (r: Vec<String>)
    ensures
        r@ == v@,
{
    let mut out: Vec<String> = Vec::new();
    let mut i: usize = 0;
    while i < v.len()
        invariant
            i <= v.len(),
            out@ == v@.take(i as int),
        decreases v.len() - i,
    {
        out.push(v[i].clone());
        assert(out@ =~= v@.take(i as int + 1));
        i = i + 1;
    }
    assert(v@.take(v.len() as int) =~= v@);
    out
}

/// The loaded character table. It can only be built by loading the
/// embedded data, so every value holds exactly the curriculum.
pub struct CharTable {
    rows: Vec<Vec<String>>,
}

impl View for CharTable {
    type V = Seq<Seq<Seq<char>>>;

    closed spec fn view(&self) -> Seq<Seq<Seq<char>>> {
        self.rows@.map_values(|r: Vec<String>| strings_view(r@))
    }
}

impl CharTable {
    #[verifier::type_invariant]
    closed spec fn holds_curriculum(self) -> bool {
        self@ == curriculum()
    }

    /// The number of rows.
    pub fn len(&self) -> (r: usize)
        ensures
            r == self@.len(),
            r == TERM_COUNT,
    {
        proof {
            use_type_invariant(self);
            assert(self@.len() == self.rows@.len());
        }
        self.rows.len()
    }

    /// Row `index` of the table.
    pub fn row(&self, index: usize) -> (r: &Vec<String>)
        requires
            index < self@.len(),
        ensures
            strings_view(r@) == self@[index as int],
    {
        &self.rows[index]
    }

    /// The characters that grade `grade`, term `term` introduces, in
    /// teaching order; nothing where the two name no row.
    pub fn chars_for(&self, grade: usize, term: usize) -> (r: Vec<String>)
        ensures
            strings_view(r@) == chars_of(grade as int, term as int),
    {
        proof {
            use_type_invariant(self);
        }
        if grade < 1 || grade > 6 || term < 1 || term > 2 {
            let r: Vec<String> = Vec::new();
            assert(strings_view(r@) =~= Seq::empty());
            return r;
        }
        let index = (grade - 1) * 2 + (term - 1);
        assert(self@.len() == self.rows@.len());
        if index < self.rows.len() {
            assert(self@[index as int] == strings_view(self.rows@[index as int]@));
            assert(curriculum()[index as int] == curriculum_row(index as int));
            copy_strings(&self.rows[index])
        } else {
            let r: Vec<String> = Vec::new();
            assert(strings_view(r@) =~= Seq::empty());
            r
        }
    }
}

/// Builds the table from the embedded data: row `i` holds the distinct
/// characters of source row `i`, in order.
pub fn get_all_new_chars_from_txt() -> (r: CharTable)
    ensures
        r@ == curriculum(),
        r@.len() == TERM_COUNT,
{
    let mut rows: Vec<Vec<String>> = Vec::new();
    let mut i: usize = 0;
    while i < TERM_COUNT
        invariant
            i <= TERM_COUNT,
            rows@.map_values(|r: Vec<String>| strings_view(r@)) == curriculum().take(i as int),
        decreases TERM_COUNT - i,
    {
        let row = distinct_strings(term_text(i));
        let ghost prev = rows@;
        rows.push(row);
        assert(rows@.map_values(|r: Vec<String>| strings_view(r@)) =~= curriculum().take(
            i as int + 1,
        )) by {
            assert(prev.map_values(|r: Vec<String>| strings_view(r@)).len() == i);
        }
        i = i + 1;
    }
    assert(curriculum().take(TERM_COUNT as int) =~= curriculum());
    CharTable { rows }
}

/// Loads the table into `slot` unless it already holds one; a table that is
/// there is kept as it is. After any number of calls `slot` holds the same
/// content, in `TERM_COUNT` rows.
pub fn ensure_loaded(slot: &mut Option<CharTable>)
    ensures
        *final(slot) is Some,
        (*final(slot))->0@ == curriculum(),
        (*final(slot))->0@.len() == TERM_COUNT,
        *old(slot) is Some ==> *final(slot) == *old(slot),
{
    match slot {
        Some(t) => {
            proof {
                use_type_invariant(&*t);
            }
        },
        None => {
            *slot = Some(get_all_new_chars_from_txt());
        },
    }
}

/// The characters that grade `grade`, term `term` introduces, in teaching
/// order, loading the table into `slot` first where it is empty; nothing,
/// and `slot` untouched, where the two name no row.
pub fn get_new_chars(slot: &mut Option<CharTable>, grade: usize, term: usize) -> (r: Vec<String>)
    ensures
        strings_view(r@) == chars_of(grade as int, term as int),
        valid_grade_term(grade as int, term as int) ==> *final(slot) is Some,
        *old(slot) is Some || !valid_grade_term(grade as int, term as int) ==> *final(slot)
            == *old(slot),
{
    if grade < 1 || grade > 6 || term < 1 || term > 2 {
        return Vec::new();
    }
    ensure_loaded(slot);
    match slot {
        Some(t) => t.chars_for(grade, term),
        None => Vec::new(),
    }
}

} // verus!
