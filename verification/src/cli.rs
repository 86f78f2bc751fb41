//! What the command line needs of the library: the order in which printers are listed, and
//! the print options that the command-line arguments ask for.
use vstd::prelude::*;

use crate::options::{
    ColorMode, CopiesInt, Finishing, MediaSize, MediaSource, MediaType, NumberUpInt, Orientation,
    PrintOptions, Quality, SidesMode,
};
use crate::printer::Printer;
use vstd::multiset::Multiset;

verus! {

broadcast use vstd::seq_lib::group_to_multiset_ensures;

/// Whether the text `a` comes before the text `b`: the lexicographic order of their characters
/// by code point, which is the order of their UTF-8 bytes.
pub open spec fn name_lt(a: Seq<char>, b: Seq<char>) -> bool
    decreases a.len(),
{
    if a.len() == 0 {
        b.len() > 0
    } else if b.len() == 0 {
        false
    } else if a[0] < b[0] {
        true
    } else if b[0] < a[0] {
        false
    } else {
        name_lt(a.drop_first(), b.drop_first())
    }
}

/// The order of texts is asymmetric.
pub broadcast proof fn lemma_name_lt_asymmetric(a: Seq<char>, b: Seq<char>)
    ensures
        #[trigger] name_lt(a, b) ==> !name_lt(b, a),
    decreases a.len(),
{
    if a.len() > 0 && b.len() > 0 {
        lemma_name_lt_asymmetric(a.drop_first(), b.drop_first());
    }
}

/// The order of texts is transitive.
pub broadcast proof fn lemma_name_lt_transitive(a: Seq<char>, b: Seq<char>, c: Seq<char>)
    ensures
        #[trigger] name_lt(a, b) && #[trigger] name_lt(b, c) ==> name_lt(a, c),
    decreases a.len(),
{
    if a.len() > 0 && b.len() > 0 && c.len() > 0 {
        lemma_name_lt_transitive(a.drop_first(), b.drop_first(), c.drop_first());
    }
}

/// Of two different texts, one comes before the other.
pub broadcast proof fn lemma_name_lt_total(a: Seq<char>, b: Seq<char>)
    ensures
        a == b || #[trigger] name_lt(a, b) || name_lt(b, a),
    decreases a.len(),
{
    if a.len() > 0 && b.len() > 0 {
        lemma_name_lt_total(a.drop_first(), b.drop_first());
        if a[0] == b[0] && a.drop_first() == b.drop_first() {
            assert(a =~= seq![a[0]] + a.drop_first());
            assert(b =~= seq![b[0]] + b.drop_first());
        }
    } else if a.len() == 0 && b.len() == 0 {
        assert(a =~= b);
    }
}

/// Whether printer `a` is listed before printer `b`: the default printer comes first, and
/// printers are otherwise ordered by name.
pub open spec fn printer_lt(a: Printer, b: Printer) -> bool {
    ||| a.is_default && !b.is_default
    ||| a.is_default == b.is_default && name_lt(a.name@, b.name@)
}

/// Whether printers `a` and `b` are listed in no particular order with respect to each other.
pub open spec fn printer_tied(a: Printer, b: Printer) -> bool {
    a.is_default == b.is_default && a.name@ == b.name@
}

/// Printers are ordered strictly and weakly: one comes before another, or after it, or they
/// are tied.
pub proof fn lemma_printer_order(a: Printer, b: Printer, c: Printer)
    ensures
        !printer_lt(a, a),
        printer_lt(a, b) ==> !printer_lt(b, a),
        printer_lt(a, b) && printer_lt(b, c) ==> printer_lt(a, c),
        printer_lt(a, b) || printer_lt(b, a) || printer_tied(a, b),
        !printer_lt(a, b) && !printer_lt(b, c) ==> !printer_lt(a, c),
{
    broadcast use lemma_name_lt_asymmetric, lemma_name_lt_transitive, lemma_name_lt_total;
}

/// Whether printers are listed in order.
pub open spec fn printers_sorted(s: Seq<Printer>) -> bool {
    forall|i: int, j: int| 0 <= i < j < s.len() ==> !printer_lt(#[trigger] s[j], #[trigger] s[i])
}

/// The printers `t` with `x` inserted before the first printer that does not come before it.
pub open spec fn insert_sorted(t: Seq<Printer>, x: Printer) -> Seq<Printer>
    decreases t.len(),
{
    if t.len() == 0 {
        seq![x]
    } else if printer_lt(t[0], x) {
        seq![t[0]] + insert_sorted(t.drop_first(), x)
    } else {
        seq![x] + t
    }
}

/// The printers `s` in order; tied printers keep their relative order.
pub open spec fn sort_printers(s: Seq<Printer>) -> Seq<Printer>
    decreases s.len(),
{
    if s.len() == 0 {
        Seq::empty()
    } else {
        insert_sorted(sort_printers(s.drop_first()), s[0])
    }
}

/// Inserting a printer at the first position where the next printer does not come before it.
proof fn lemma_insert_sorted_at(t: Seq<Printer>, x: Printer, p: int)
    requires
        0 <= p <= t.len(),
        forall|j: int| 0 <= j < p ==> printer_lt(#[trigger] t[j], x),
        p == t.len() || !printer_lt(t[p], x),
    ensures
        insert_sorted(t, x) == t.insert(p, x),
    decreases p,
{
    if p == 0 {
        if t.len() == 0 {
            assert(t.insert(0, x) =~= seq![x]);
        } else {
            assert(t.insert(0, x) =~= seq![x] + t);
        }
    } else {
        assert(printer_lt(t[0], x));
        lemma_insert_sorted_at(t.drop_first(), x, p - 1);
        assert(t.insert(p, x) =~= seq![t[0]] + t.drop_first().insert(p - 1, x));
    }
}

/// Inserting into listed printers keeps them listed in order and adds exactly the printer.
proof fn lemma_insert_sorted(t: Seq<Printer>, x: Printer)
    requires
        printers_sorted(t),
    ensures
        printers_sorted(insert_sorted(t, x)),
        insert_sorted(t, x).to_multiset() == t.to_multiset().insert(x),
    decreases t.len(),
{
    if t.len() == 0 {
        assert(seq![x] =~= Seq::<Printer>::empty().push(x));
    } else if printer_lt(t[0], x) {
        let rest = t.drop_first();
        let r = insert_sorted(rest, x);
        assert(printers_sorted(rest)) by {
            assert forall|i: int, j: int| 0 <= i < j < rest.len() implies !printer_lt(
                #[trigger] rest[j],
                #[trigger] rest[i],
            ) by {
                assert(rest[j] == t[j + 1] && rest[i] == t[i + 1]);
            }
        }
        lemma_insert_sorted(rest, x);
        let res = seq![t[0]] + r;
        assert(t =~= seq![t[0]] + rest);
        assert forall|i: int, j: int| 0 <= i < j < res.len() implies !printer_lt(
            #[trigger] res[j],
            #[trigger] res[i],
        ) by {
            if i == 0 {
                let e = r[j - 1];
                assert(res[j] == e);
                assert(r.to_multiset().count(e) > 0);
                assert(r.contains(e));
                if e != x {
                    assert(rest.to_multiset().count(e) > 0);
                    assert(rest.contains(e));
                    let k = choose|k: int| 0 <= k < rest.len() && rest[k] == e;
                    assert(t[k + 1] == e);
                    assert(!printer_lt(t[k + 1], t[0]));
                } else {
                    lemma_printer_order(t[0], x, x);
                }
            } else {
                assert(res[i] == r[i - 1] && res[j] == r[j - 1]);
            }
        }
        vstd::seq_lib::lemma_multiset_commutative(seq![t[0]], r);
        vstd::seq_lib::lemma_multiset_commutative(seq![t[0]], rest);
        assert(insert_sorted(t, x) == res);
        assert(res.to_multiset() =~= t.to_multiset().insert(x));
    } else {
        let res = seq![x] + t;
        assert forall|i: int, j: int| 0 <= i < j < res.len() implies !printer_lt(
            #[trigger] res[j],
            #[trigger] res[i],
        ) by {
            if i == 0 {
                assert(res[j] == t[j - 1]);
                if j - 1 > 0 {
                    assert(!printer_lt(t[j - 1], t[0]));
                }
                lemma_printer_order(t[j - 1], t[0], x);
            } else {
                assert(res[i] == t[i - 1] && res[j] == t[j - 1]);
            }
        }
        assert(res =~= t.insert(0, x));
    }
}

/// Sorting lists the printers in order, and lists each of them exactly as often as before.
pub proof fn lemma_sort_printers(s: Seq<Printer>)
    ensures
        printers_sorted(sort_printers(s)),
        sort_printers(s).to_multiset() == s.to_multiset(),
    decreases s.len(),
{
    if s.len() > 0 {
        lemma_sort_printers(s.drop_first());
        lemma_insert_sorted(sort_printers(s.drop_first()), s[0]);
        assert(s =~= seq![s[0]] + s.drop_first());
        vstd::seq_lib::lemma_multiset_commutative(seq![s[0]], s.drop_first());
        assert(seq![s[0]].to_multiset() =~= Seq::<Printer>::empty().push(s[0]).to_multiset());
        assert(s.to_multiset() =~= s.drop_first().to_multiset().insert(s[0]));
    } else {
        assert(s.to_multiset() =~= Multiset::<Printer>::empty());
    }
}

/// Returns whether the text `a` comes before the text `b`.
fn name_less(a: &String, b: &String) -> (r: bool)
    ensures
        r == name_lt(a@, b@),
{
    let sa = a.as_str();
    let sb = b.as_str();
    let la = sa.unicode_len();
    let lb = sb.unicode_len();
    let mut i: usize = 0;
    assert(a@.skip(0) =~= a@ && b@.skip(0) =~= b@);
    while i < la && i < lb
        invariant
            la == a@.len(),
            lb == b@.len(),
            sa@ == a@,
            sb@ == b@,
            i <= la,
            i <= lb,
            name_lt(a@, b@) == name_lt(a@.skip(i as int), b@.skip(i as int)),
        decreases la - i,
    {
        let ca = sa.get_char(i);
        let cb = sb.get_char(i);
        assert(a@.skip(i as int)[0] == ca && b@.skip(i as int)[0] == cb);
        if ca < cb {
            return true;
        }
        if cb < ca {
            return false;
        }
        assert(a@.skip(i as int).drop_first() =~= a@.skip(i + 1));
        assert(b@.skip(i as int).drop_first() =~= b@.skip(i + 1));
        i = i + 1;
    }
    i == la && i < lb
}

/// Returns whether printer `a` is listed before printer `b`.
fn printer_less(a: &Printer, b: &Printer) -> (r: bool)
    ensures
        r == printer_lt(*a, *b),
{
    if a.is_default != b.is_default {
        a.is_default
    } else {
        name_less(&a.name, &b.name)
    }
}

/// Returns the printers in a sorted order: the default printer first, the others by name.
/// Printers that are tied keep their relative order.
pub fn get_sorted_printers(printers: Vec<Printer>) -> (r: Vec<Printer>)
    ensures
        r@ == sort_printers(printers@),
        printers_sorted(r@),
        r@.to_multiset() == printers@.to_multiset(),
{
    let ghost all = printers@;
    let n = printers.len();
    let mut rest = printers;
    let mut sorted: Vec<Printer> = Vec::new();
    assert(all.subrange(n as int, n as int) =~= Seq::<Printer>::empty());
    while rest.len() > 0
        invariant
            rest.len() <= n,
            n == all.len(),
            rest@ == all.subrange(0, rest.len() as int),
            sorted@ == sort_printers(all.subrange(rest.len() as int, n as int)),
        decreases rest.len(),
    {
        let ghost k = rest.len() - 1;
        let x = rest.pop().unwrap();
        assert(x == all[k]);
        assert(rest@ =~= all.subrange(0, k));
        let ghost tail = all.subrange(k + 1, n as int);
        assert(all.subrange(k, n as int).drop_first() =~= tail);
        assert(all.subrange(k, n as int)[0] == x);
        let mut p: usize = 0;
        while p < sorted.len() && printer_less(&sorted[p], &x)
            invariant
                p <= sorted@.len(),
                forall|j: int| 0 <= j < p ==> printer_lt(#[trigger] sorted@[j], x),
            decreases sorted@.len() - p,
        {
            p = p + 1;
        }
        proof {
            lemma_insert_sorted_at(sorted@, x, p as int);
        }
        sorted.insert(p, x);
    }
    assert(all.subrange(0, n as int) =~= all);
    proof {
        lemma_sort_printers(all);
    }
    sorted
}

/// A path of the file system, as the standard library holds it.
#[verifier::external_type_specification]
#[verifier::external_body]
pub struct ExPathBuf(std::path::PathBuf);

/// The arguments of the command that displays information about a printer.
#[derive(Debug)]
pub struct DisplayArgs {
    /// The ID of the printer (its position in the sorted list of printers).
    pub id: usize,
    /// Whether to display all options of the printer.
    pub options: bool,
}

/// The arguments of the command that submits documents for printing.
#[derive(Debug)]
pub struct PrintArgs {
    /// Paths to the files to be printed.
    pub paths: Vec<std::path::PathBuf>,
    /// Amount of copies.
    pub copies: Option<usize>,
    /// Finishing processes to be performed by the printer.
    pub finishings: Option<Vec<Finishing>>,
    /// Size of the media.
    pub size: Option<MediaSize>,
    /// Source where the media is pulled from.
    pub source: Option<MediaSource>,
    /// Type of media.
    pub media_type: Option<MediaType>,
    /// Number of document pages per media side.
    pub number_up: Option<usize>,
    /// Orientation of document pages.
    pub orientation: Option<Orientation>,
    /// Color or monochrome ink.
    pub color_mode: Option<ColorMode>,
    /// The quality of the resulting print.
    pub quality: Option<Quality>,
    /// One or both sides of the media.
    pub sides_mode: Option<SidesMode>,
}

/// A count as the C integer that CUPS takes: the count converted with `as`, which keeps its
/// low 32 bits.
pub open spec fn c_int_of(count: usize) -> i32 {
    count as i32
}

/// The print options that the print arguments ask for.
pub open spec fn options_of_args(value: PrintArgs) -> PrintOptions {
    PrintOptions {
        copies: match value.copies {
            Some(c) => Some(CopiesInt(c_int_of(c))),
            None => None,
        },
        finishings: value.finishings,
        media_size: value.size,
        media_source: value.source,
        media_type: value.media_type,
        number_up: match value.number_up {
            Some(u) => Some(NumberUpInt(c_int_of(u))),
            None => None,
        },
        orientation: value.orientation,
        color_mode: value.color_mode,
        quality: value.quality,
        sides_mode: value.sides_mode,
    }
}

/// Converts a count to the C integer that CUPS takes, with `as`.
fn to_c_int(count: usize) -> (r: i32)
    ensures
        r == c_int_of(count),
{
    count as i32
}

impl From<PrintArgs> for PrintOptions {
    fn from(value: PrintArgs) -> (r: PrintOptions)
        ensures
            r.copies is Some <==> value.copies is Some,
            r.copies matches Some(c) ==> c.0 == c_int_of(value.copies->0),
            r.number_up is Some <==> value.number_up is Some,
            r.number_up matches Some(u) ==> u.0 == c_int_of(value.number_up->0),
            r.finishings == value.finishings,
            r.media_size == value.size,
            r.media_source == value.source,
            r.media_type == value.media_type,
            r.orientation == value.orientation,
            r.color_mode == value.color_mode,
            r.quality == value.quality,
            r.sides_mode == value.sides_mode,
    {
        let copies = match value.copies {
            Some(c) => Some(CopiesInt(to_c_int(c))),
            None => None,
        };
        let number_up = match value.number_up {
            Some(u) => Some(NumberUpInt(to_c_int(u))),
            None => None,
        };
        PrintOptions {
            copies,
            finishings: value.finishings,
            media_size: value.size,
            media_source: value.source,
            media_type: value.media_type,
            number_up,
            orientation: value.orientation,
            color_mode: value.color_mode,
            quality: value.quality,
            sides_mode: value.sides_mode,
        }
    }
}

impl vstd::std_specs::convert::FromSpecImpl<PrintArgs> for PrintOptions {
    open spec fn obeys_from_spec() -> bool {
        true
    }

    open spec fn from_spec(v: PrintArgs) -> PrintOptions {
        options_of_args(v)
    }
}

/// The print options keep every option argument as it was given: counts become the C integers
/// that CUPS takes, and every other argument passes unchanged, set or not.
pub proof fn lemma_options_keep_arguments(args: PrintArgs)
    ensures
        options_of_args(args).copies is Some <==> args.copies is Some,
        options_of_args(args).copies matches Some(c) ==> c.0 == args.copies->0 as i32,
        options_of_args(args).number_up is Some <==> args.number_up is Some,
        options_of_args(args).number_up matches Some(u) ==> u.0 == args.number_up->0 as i32,
        options_of_args(args).finishings == args.finishings,
        options_of_args(args).media_size == args.size,
        options_of_args(args).media_source == args.source,
        options_of_args(args).media_type == args.media_type,
        options_of_args(args).orientation == args.orientation,
        options_of_args(args).color_mode == args.color_mode,
        options_of_args(args).quality == args.quality,
        options_of_args(args).sides_mode == args.sides_mode,
{
}

} // verus!
