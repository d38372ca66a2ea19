use vstd::prelude::*;
use vstd::string::{StrSliceExecFns, StringExecFns};

use crate::builders::strings_view;
use crate::curie::{is_white_space, is_white_space_char};

verus! {

/// A variant as one line of a VCF file.
#[derive(Clone, Debug)]
pub struct VcfRecord {
    pub genome_assembly: String,
    pub chrom: String,
    pub pos: u64,
    pub id: String,
    pub ref_allele: String,
    pub alt: String,
    pub qual: String,
    pub filter: String,
    pub info: String,
}

pub ghost struct VcfRecordView {
    pub genome_assembly: Seq<char>,
    pub chrom: Seq<char>,
    pub pos: u64,
    pub id: Seq<char>,
    pub ref_allele: Seq<char>,
    pub alt: Seq<char>,
    pub qual: Seq<char>,
    pub filter: Seq<char>,
    pub info: Seq<char>,
}

impl View for VcfRecord {
    type V = VcfRecordView;

    open spec fn view(&self) -> VcfRecordView {
        VcfRecordView {
            genome_assembly: self.genome_assembly@,
            chrom: self.chrom@,
            pos: self.pos,
            id: self.id@,
            ref_allele: self.ref_allele@,
            alt: self.alt@,
            qual: self.qual@,
            filter: self.filter@,
            info: self.info@,
        }
    }
}

/// A record with the five required fields and every other field empty.
pub open spec fn bare_record(
    assembly: Seq<char>,
    chromosome: Seq<char>,
    position: u64,
    ref_allele: Seq<char>,
    alt_allele: Seq<char>,
) -> VcfRecordView {
    VcfRecordView {
        genome_assembly: assembly,
        chrom: chromosome,
        pos: position,
        id: Seq::empty(),
        ref_allele,
        alt: alt_allele,
        qual: Seq::empty(),
        filter: Seq::empty(),
        info: Seq::empty(),
    }
}

/// `t` is `PASS` in any mix of ASCII cases.
pub open spec fn is_pass(t: Seq<char>) -> bool {
    t.len() == 4 && (t[0] == 'p' || t[0] == 'P') && (t[1] == 'a' || t[1] == 'A') && (t[2] == 's'
        || t[2] == 'S') && (t[3] == 's' || t[3] == 'S')
}

/// `t` without the whitespace at its start.
pub open spec fn trim_start(t: Seq<char>) -> Seq<char>
    decreases t.len(),
{
    if t.len() > 0 && is_white_space(t[0]) {
        trim_start(t.drop_first())
    } else {
        t
    }
}

/// `t` without the whitespace at its end.
pub open spec fn trim_end(t: Seq<char>) -> Seq<char>
    decreases t.len(),
{
    if t.len() > 0 && is_white_space(t.last()) {
        trim_end(t.drop_last())
    } else {
        t
    }
}

/// `t` without whitespace at either end.
pub open spec fn trim(t: Seq<char>) -> Seq<char> {
    trim_end(trim_start(t))
}

/// The position of the first `;` of `s`, or its length where it has none.
pub open spec fn semicolon_at(s: Seq<char>) -> nat
    decreases s.len(),
{
    if s.len() == 0 || s[0] == ';' {
        0
    } else {
        1 + semicolon_at(s.drop_first())
    }
}

pub open spec fn has_semicolon(s: Seq<char>) -> bool {
    exists|i: int| 0 <= i < s.len() && s[i] == ';'
}

/// Filter state: whether the record passed, and the failed filters so far.
pub type FilterState = (bool, Seq<Seq<char>>);

/// Adds one filter name without `;`: `PASS` (any case) marks the record as
/// passed and forgets earlier filters; any other name is appended.
pub open spec fn add_one_filter(st: FilterState, t: Seq<char>) -> FilterState {
    if is_pass(t) {
        (true, Seq::empty())
    } else {
        (false, st.1.push(t))
    }
}

/// Adds each `;`-separated field of `s`, trimmed, skipping empty ones.
pub open spec fn add_filter_fields(st: FilterState, s: Seq<char>) -> FilterState
    decreases s.len(),
{
    let k = semicolon_at(s) as int;
    let t = trim(s.take(k));
    let next = if t.len() > 0 {
        add_one_filter(st, t)
    } else {
        st
    };
    if k >= s.len() {
        next
    } else {
        add_filter_fields(next, s.skip(k + 1))
    }
}

/// What adding the filter text `f` does to the state.
pub open spec fn add_filter(st: FilterState, f: Seq<char>) -> FilterState {
    if is_pass(f) {
        (true, Seq::empty())
    } else if has_semicolon(f) {
        add_filter_fields((false, st.1), f)
    } else {
        (false, st.1.push(f))
    }
}

/// The names joined with `;` between them.
pub open spec fn join_semicolons(fs: Seq<Seq<char>>) -> Seq<char>
    decreases fs.len(),
{
    if fs.len() == 0 {
        Seq::empty()
    } else if fs.len() == 1 {
        fs[0]
    } else {
        join_semicolons(fs.drop_last()) + seq![';'] + fs.last()
    }
}

/// The FILTER column for a state: `PASS`, the failed filters joined by
/// `;`, or nothing where no filter was given.
pub open spec fn filter_column(st: FilterState) -> Seq<char> {
    if st.0 {
        seq!['P', 'A', 'S', 'S']
    } else {
        join_semicolons(st.1)
    }
}

proof fn lemma_semicolon_at(s: Seq<char>, k: int)
    requires
        0 <= k <= s.len(),
        forall|i: int| 0 <= i < k ==> s[i] != ';',
        k == s.len() || s[k] == ';',
    ensures
        semicolon_at(s) == k,
    decreases k,
{
    if k > 0 {
        lemma_semicolon_at(s.drop_first(), k - 1);
    }
}

proof fn lemma_trim_start(t: Seq<char>, p: int)
    requires
        0 <= p <= t.len(),
        forall|i: int| 0 <= i < p ==> is_white_space(#[trigger] t[i]),
        p == t.len() || !is_white_space(t[p]),
    ensures
        trim_start(t) == t.skip(p),
    decreases p,
{
    if p > 0 {
        lemma_trim_start(t.drop_first(), p - 1);
        assert(t.drop_first().skip(p - 1) =~= t.skip(p));
    } else {
        assert(t.skip(0) =~= t);
    }
}

proof fn lemma_trim_end(t: Seq<char>, q: int)
    requires
        0 <= q <= t.len(),
        forall|i: int| q <= i < t.len() ==> is_white_space(#[trigger] t[i]),
        q == 0 || !is_white_space(t[q - 1]),
    ensures
        trim_end(t) == t.take(q),
    decreases t.len() - q,
{
    if q < t.len() {
        lemma_trim_end(t.drop_last(), q);
        assert(t.drop_last().take(q) =~= t.take(q));
    } else {
        assert(t.take(q) =~= t);
    }
}

/// Whether `s[from..to]` reads `PASS` in any mix of ASCII cases.
fn is_pass_at(s: &str, from: usize, to: usize) -> (r: bool)
    requires
        from <= to <= s@.len(),
    ensures
        r == is_pass(s@.subrange(from as int, to as int)),
{
    if to - from != 4 {
        return false;
    }
    let c0 = s.get_char(from);
    let c1 = s.get_char(from + 1);
    let c2 = s.get_char(from + 2);
    let c3 = s.get_char(from + 3);
    (c0 == 'p' || c0 == 'P') && (c1 == 'a' || c1 == 'A') && (c2 == 's' || c2 == 'S') && (c3 == 's'
        || c3 == 'S')
}

/// Builds a `VcfRecord`. Filters given one by one are gathered; `PASS`
/// (in any case) marks the record as passed and forgets earlier filters.
pub struct VcfRecordBuilder {
    builder: VcfRecord,
    pass_is_set: bool,
    filters: Vec<String>,
}

impl VcfRecordBuilder {
    /// The record fields set so far (the FILTER column is filled in only by
    /// `build`).
    pub closed spec fn record(&self) -> VcfRecordView {
        self.builder@
    }

    /// The filter state so far.
    pub closed spec fn filter_state(&self) -> FilterState {
        (self.pass_is_set, strings_view(self.filters@))
    }

    pub fn builder(
        assembly: &str,
        chromosome: &str,
        position: u64,
        ref_allele: &str,
        alt_allele: &str,
    ) -> (r: Self)
        ensures
            r.record() == bare_record(assembly@, chromosome@, position, ref_allele@, alt_allele@),
            r.filter_state() == (false, Seq::<Seq<char>>::empty()),
    {
        let r = VcfRecordBuilder {
            builder: Self::of(assembly, chromosome, position, ref_allele, alt_allele),
            pass_is_set: false,
            filters: Vec::new(),
        };
        assert(strings_view(r.filters@) =~= Seq::<Seq<char>>::empty());
        r
    }

    /// A record with the five required fields and every other field empty.
    pub fn of(
        assembly: &str,
        chromosome: &str,
        position: u64,
        ref_allele: &str,
        alt_allele: &str,
    ) -> (r: VcfRecord)
        ensures
            r@ == bare_record(assembly@, chromosome@, position, ref_allele@, alt_allele@),
    {
        VcfRecord {
            genome_assembly: String::from_str(assembly),
            chrom: String::from_str(chromosome),
            pos: position,
            id: String::new(),
            ref_allele: String::from_str(ref_allele),
            alt: String::from_str(alt_allele),
            qual: String::new(),
            filter: String::new(),
            info: String::new(),
        }
    }

    pub fn id(self, id: &str) -> (r: Self)
        ensures
            r.record() == (VcfRecordView { id: id@, ..self.record() }),
            r.filter_state() == self.filter_state(),
    {
        let mut s = self;
        s.builder.id = String::from_str(id);
        s
    }

    pub fn qual(self, qual: &str) -> (r: Self)
        ensures
            r.record() == (VcfRecordView { qual: qual@, ..self.record() }),
            r.filter_state() == self.filter_state(),
    {
        let mut s = self;
        s.builder.qual = String::from_str(qual);
        s
    }

    pub fn info(self, info: &str) -> (r: Self)
        ensures
            r.record() == (VcfRecordView { info: info@, ..self.record() }),
            r.filter_state() == self.filter_state(),
    {
        let mut s = self;
        s.builder.info = String::from_str(info);
        s
    }

    /// Marks the record as passed; earlier filters are forgotten.
    pub fn pass(self) -> (r: Self)
        ensures
            r.record() == self.record(),
            r.filter_state() == (true, Seq::<Seq<char>>::empty()),
    {
        let mut s = self;
        s.pass_is_set = true;
        s.filters = Vec::new();
        assert(strings_view(s.filters@) =~= Seq::<Seq<char>>::empty());
        s
    }

    /// Adds `s[from..to]`, which holds no `;`, as one filter.
    fn add_one(&mut self, s: &str, from: usize, to: usize)
        requires
            from <= to <= s@.len(),
        ensures
            final(self).record() == old(self).record(),
            final(self).filter_state() == add_one_filter(
                old(self).filter_state(),
                s@.subrange(from as int, to as int),
            ),
    {
        if is_pass_at(s, from, to) {
            self.pass_is_set = true;
            self.filters = Vec::new();
            assert(strings_view(self.filters@) =~= Seq::<Seq<char>>::empty());
        } else {
            let ghost before = self.filters@;
            self.pass_is_set = false;
            self.filters.push(String::from_str(s.substring_char(from, to)));
            assert(strings_view(self.filters@) =~= strings_view(before).push(
                s@.subrange(from as int, to as int),
            ));
        }
    }

    /// Adds a filter. `PASS` in any case marks the record as passed and
    /// forgets earlier filters. A text with `;` is split there and each
    /// field, with its surrounding whitespace removed, is added in turn
    /// (empty fields are skipped). Any other text is added as it stands.
    pub fn filter(self, filter: &str) -> (r: Self)
        ensures
            r.record() == self.record(),
            r.filter_state() == add_filter(self.filter_state(), filter@),
    {
        let mut s = self;
        let n = filter.unicode_len();
        if is_pass_at(filter, 0, n) {
            assert(filter@.subrange(0, n as int) =~= filter@);
            return s.pass();
        }
        assert(filter@.subrange(0, n as int) =~= filter@);
        let mut p: usize = 0;
        while p < n && filter.get_char(p) != ';'
            invariant
                n == filter@.len(),
                0 <= p <= n,
                forall|i: int| 0 <= i < p ==> filter@[i] != ';',
            decreases n - p,
        {
            p = p + 1;
        }
        if p == n {
            assert(!has_semicolon(filter@));
            let ghost before = s.filters@;
            s.pass_is_set = false;
            s.filters.push(String::from_str(filter));
            assert(strings_view(s.filters@) =~= strings_view(before).push(filter@));
            return s;
        }
        assert(has_semicolon(filter@));
        s.pass_is_set = false;
        let ghost start_state = s.filter_state();
        let mut a: usize = 0;
        loop
            invariant
                n == filter@.len(),
                a <= n,
                s.record() == self.record(),
                add_filter(self.filter_state(), filter@) == add_filter_fields(
                    s.filter_state(),
                    filter@.skip(a as int),
                ),
            decreases n - a,
        {
            let ghost rest = filter@.skip(a as int);
            let mut k: usize = a;
            while k < n && filter.get_char(k) != ';'
                invariant
                    n == filter@.len(),
                    a <= k <= n,
                    forall|i: int| a <= i < k ==> filter@[i] != ';',
                decreases n - k,
            {
                k = k + 1;
            }
            proof {
                lemma_semicolon_at(rest, k - a);
            }
            let mut i: usize = a;
            while i < k && is_white_space_char(filter.get_char(i))
                invariant
                    n == filter@.len(),
                    a <= i <= k <= n,
                    forall|m: int| a <= m < i ==> is_white_space(#[trigger] filter@[m]),
                decreases k - i,
            {
                i = i + 1;
            }
            let mut j: usize = k;
            while j > i && is_white_space_char(filter.get_char(j - 1))
                invariant
                    n == filter@.len(),
                    a <= i <= j <= k <= n,
                    forall|m: int| j <= m < k ==> is_white_space(#[trigger] filter@[m]),
                decreases j - i,
            {
                j = j - 1;
            }
            proof {
                let seg = rest.take(k - a);
                assert(seg =~= filter@.subrange(a as int, k as int));
                assert forall|m: int| 0 <= m < i - a implies is_white_space(#[trigger] seg[m]) by {
                    assert(seg[m] == filter@[a + m]);
                }
                lemma_trim_start(seg, i - a);
                let st = seg.skip(i - a);
                assert(st =~= filter@.subrange(i as int, k as int));
                assert forall|m: int| j - i <= m < st.len() implies is_white_space(
                    #[trigger] st[m],
                ) by {
                    assert(st[m] == filter@[i + m]);
                }
                if j > i {
                    assert(st[j - i - 1] == filter@[j - 1]);
                }
                lemma_trim_end(st, j - i);
                assert(st.take(j - i) =~= filter@.subrange(i as int, j as int));
            }
            if j > i {
                s.add_one(filter, i, j);
            }
            if k >= n {
                return s;
            }
            assert(rest.skip(k - a + 1) =~= filter@.skip(k + 1));
            a = k + 1;
        }
    }

    /// The record, with its FILTER column: `PASS` for a passed record,
    /// else the filters joined by `;`, else empty.
    pub fn build(self) -> (r: VcfRecord)
        ensures
            r@ == (VcfRecordView { filter: filter_column(self.filter_state()), ..self.record() }),
    {
        let mut record = self.builder;
        proof {
            reveal_strlit("PASS");
        }
        if self.pass_is_set {
            record.filter = String::from_str("PASS");
            assert(record.filter@ =~= seq!['P', 'A', 'S', 'S']);
        } else {
            let mut joined = String::new();
            let mut i: usize = 0;
            while i < self.filters.len()
                invariant
                    0 <= i <= self.filters@.len(),
                    joined@ == join_semicolons(strings_view(self.filters@).take(i as int)),
                decreases self.filters@.len() - i,
            {
                let ghost fs = strings_view(self.filters@);
                let ghost prev = joined@;
                assert(fs.take(i as int + 1).drop_last() =~= fs.take(i as int));
                assert(fs[i as int] == self.filters@[i as int]@);
                assert(fs.take(i as int + 1).last() == fs[i as int]);
                if i > 0 {
                    joined = joined.concat(";");
                    proof {
                        reveal_strlit(";");
                    }
                    assert(";"@ =~= seq![';']);
                }
                joined = joined.concat(self.filters[i].as_str());
                proof {
                    if i == 0 {
                        assert(prev =~= Seq::<char>::empty());
                        assert(joined@ =~= fs[0]);
                    } else {
                        assert(joined@ =~= prev + seq![';'] + fs[i as int]);
                    }
                }
                i = i + 1;
                assert(joined@ =~= join_semicolons(fs.take(i as int)));
            }
            assert(strings_view(self.filters@).take(i as int) =~= strings_view(self.filters@));
            record.filter = joined;
        }
        record
    }
}

} // verus!
