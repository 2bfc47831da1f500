use chrono::Datelike;
use vstd::prelude::*;

use crate::collection::{ids_distinct, is_first_repeat, Collection, CollectionWithId, Id};
use crate::error::Error;
use crate::objects::{is_valid_ymd, AddPrefix, Date};

verus! {

/// chrono's `format::ParseError`, the reason it gives for refusing a text; held opaque.
#[verifier::external_type_specification]
#[verifier::external_body]
pub struct ExParseError(chrono::format::ParseError);

/// The year, month and day that chrono's `NaiveDate::parse_from_str` reads from text `s` with
/// format `fmt`, or `None` where it refuses the text.
pub uninterp spec fn chrono_parsed_date(s: Seq<char>, fmt: Seq<char>) -> Option<(int, int, int)>;

/// The format of dates in the transit files: four digits of year, two of month, two of day.
pub open spec fn date_format() -> Seq<char> {
    "%Y%m%d"@
}

/// A character among `0` to `9`.
pub open spec fn is_ascii_digit(c: char) -> bool {
    '0' <= c <= '9'
}

/// The number that the decimal digits `s` write.
pub open spec fn digits_value(s: Seq<char>) -> int
    decreases s.len(),
{
    if s.len() == 0 {
        0
    } else {
        digits_value(s.drop_last()) * 10 + (s.last() as int - '0' as int)
    }
}

/// `n` written with exactly `width` decimal digits, padded with zeros on the left.
pub open spec fn padded_digits(n: nat, width: nat) -> Seq<char>
    decreases width,
{
    if width == 0 {
        Seq::empty()
    } else {
        padded_digits(n / 10, (width - 1) as nat).push(((n % 10) + '0' as int) as char)
    }
}

/// `n` written in decimal, with no leading zero.
pub open spec fn decimal_digits(n: nat) -> Seq<char>
    decreases n,
{
    if n < 10 {
        seq![(n + '0' as int) as char]
    } else {
        decimal_digits(n / 10).push(((n % 10) + '0' as int) as char)
    }
}

/// A year as `%Y` writes it: four digits, padded with zeros, for the years 0 to 9999; else a
/// sign followed by the digits, padded to four.
pub open spec fn year_text(y: int) -> Seq<char> {
    if 0 <= y <= 9999 {
        padded_digits(y as nat, 4)
    } else if y > 9999 {
        seq!['+'] + decimal_digits(y as nat)
    } else if -y <= 9999 {
        seq!['-'] + padded_digits((-y) as nat, 4)
    } else {
        seq!['-'] + decimal_digits((-y) as nat)
    }
}

/// A date as `%Y%m%d` writes it: the year, then two digits of month and two of day.
pub open spec fn written_date(year: int, month: nat, day: nat) -> Seq<char> {
    year_text(year) + padded_digits(month, 2) + padded_digits(day, 2)
}

/// Text of eight decimal digits, the shape of a date in the transit files.
pub open spec fn is_date_text(s: Seq<char>) -> bool {
    &&& s.len() == 8
    &&& forall|i: int| 0 <= i < 8 ==> is_ascii_digit(#[trigger] s[i])
}

/// The year, month and day that eight digits write: four, two and two digits.
pub open spec fn date_text_fields(s: Seq<char>) -> (int, int, int) {
    (digits_value(s.subrange(0, 4)), digits_value(s.subrange(4, 6)), digits_value(s.subrange(6, 8)))
}

/// Eight digits that name an existing day.
pub open spec fn is_valid_date_text(s: Seq<char>) -> bool {
    let f = date_text_fields(s);
    is_valid_ymd(f.0, f.1, f.2)
}

/// Ten to the power `w`.
pub open spec fn pow10(w: nat) -> nat
    decreases w,
{
    if w == 0 {
        1
    } else {
        10 * pow10((w - 1) as nat)
    }
}

/// Writing `n` with `width` digits, and reading the digits back, gives `n`.
pub proof fn lemma_padded_digits(n: nat, width: nat)
    requires
        n < pow10(width),
    ensures
        padded_digits(n, width).len() == width,
        forall|i: int| 0 <= i < width ==> is_ascii_digit(#[trigger] padded_digits(n, width)[i]),
        digits_value(padded_digits(n, width)) == n,
    decreases width,
{
    if width > 0 {
        let w1 = (width - 1) as nat;
        let q = n / 10;
        let r = n % 10;
        assert(q < pow10(w1)) by (nonlinear_arith)
            requires
                n < 10 * pow10(w1),
                q == n / 10,
        ;
        lemma_padded_digits(q, w1);
        let c = ((r + '0' as int) as char);
        let s = padded_digits(n, width);
        assert(s == padded_digits(q, w1).push(c));
        assert(s.drop_last() == padded_digits(q, w1));
        assert(c as int == r + 48);
        assert(n == q * 10 + r);
        assert forall|i: int| 0 <= i < width implies is_ascii_digit(#[trigger] s[i]) by {
            if i < w1 {
                assert(s[i] == padded_digits(q, w1)[i]);
            }
        }
    }
}

/// A date of the years 0 to 9999 written by `ser_from_naive_date` is eight digits that
/// `de_from_date_string` reads back as the same date.
pub proof fn lemma_date_round_trip(d: Date)
    requires
        d.is_valid(),
        0 <= d.year <= 9999,
    ensures
        is_date_text(written_date(d.year as int, d.month as nat, d.day as nat)),
        is_valid_date_text(written_date(d.year as int, d.month as nat, d.day as nat)),
        date_text_fields(written_date(d.year as int, d.month as nat, d.day as nat)) == d.fields(),
{
    let y = padded_digits(d.year as nat, 4);
    let m = padded_digits(d.month as nat, 2);
    let dd = padded_digits(d.day as nat, 2);
    assert(pow10(2) == 100) by {
        reveal_with_fuel(pow10, 3);
    }
    assert(pow10(4) == 10000) by {
        reveal_with_fuel(pow10, 5);
    }
    lemma_padded_digits(d.year as nat, 4);
    lemma_padded_digits(d.month as nat, 2);
    lemma_padded_digits(d.day as nat, 2);
    let t = written_date(d.year as int, d.month as nat, d.day as nat);
    assert(t.subrange(0, 4) =~= y);
    assert(t.subrange(4, 6) =~= m);
    assert(t.subrange(6, 8) =~= dd);
    assert forall|i: int| 0 <= i < 8 implies is_ascii_digit(#[trigger] t[i]) by {
        if i < 4 {
            assert(t[i] == y[i]);
        } else if i < 6 {
            assert(t[i] == m[i - 4]);
        } else {
            assert(t[i] == dd[i - 6]);
        }
    }
}

/// Calls chrono's `NaiveDate::parse_from_str(s, fmt)` and hands out the year, month and day of
/// the date read. Claimed of it: the outcome is the one `chrono_parsed_date` names; a date read
/// is a valid one; and with the format `%Y%m%d`, eight digits are read as four digits of year,
/// two of month and two of day, which succeeds exactly when they name an existing day.
#[verifier::external_body]
fn parse_date(s: &str, fmt: &str) -> (r: Result<Date, chrono::format::ParseError>)
    ensures
        r is Ok <==> chrono_parsed_date(s@, fmt@) is Some,
        r matches Ok(d) ==> chrono_parsed_date(s@, fmt@) == Some(d.fields()),
        r matches Ok(d) ==> d.is_valid(),
        fmt@ == date_format() && is_date_text(s@) ==> (r is Ok <==> is_valid_date_text(s@)),
        r matches Ok(d) ==> (fmt@ == date_format() && is_date_text(s@) ==> d.fields()
            == date_text_fields(s@)),
{
    match chrono::NaiveDate::parse_from_str(s, fmt) {
        Ok(d) => Ok(Date { year: d.year(), month: d.month(), day: d.day() }),
        Err(e) => Err(e),
    }
}

/// Calls chrono's `NaiveDate::format(fmt)`, with the format `%Y%m%d`, on the date `date` and
/// hands out the text written. Claimed of it: the year as `%Y` writes it (four digits, padded
/// with zeros, for the years 0 to 9999, else a sign and the digits padded to four), then two
/// digits of month and two of day.
#[verifier::external_body]
fn format_date(date: &Date, fmt: &str) -> (r: String)
    requires
        date.is_valid(),
        fmt@ == date_format(),
    ensures
        r@ == written_date(date.year as int, date.month as nat, date.day as nat),
{
    chrono::NaiveDate::from_ymd_opt(date.year, date.month, date.day).expect(
        "a valid date",
    ).format(fmt).to_string()
}

/// Reads a date of the transit files, written as `%Y%m%d`. It is refused, with chrono's reason,
/// where chrono refuses the text.
pub fn de_from_date_string(s: &str) -> (r: Result<Date, Error>)
    ensures
        r is Ok <==> chrono_parsed_date(s@, date_format()) is Some,
        r matches Ok(d) ==> chrono_parsed_date(s@, date_format()) == Some(d.fields()),
        r matches Ok(d) ==> d.is_valid(),
        r is Err ==> r matches Err(Error::InvalidDate(_)),
        is_date_text(s@) ==> (r is Ok <==> is_valid_date_text(s@)),
        r matches Ok(d) ==> (is_date_text(s@) ==> d.fields() == date_text_fields(s@)),
{
    date_from_chrono(parse_date(s, "%Y%m%d"))
}

/// The outcome of reading a date from what chrono read: the date, or chrono's reason as the
/// library's error.
pub fn date_from_chrono(read: Result<Date, chrono::format::ParseError>) -> (r: Result<Date, Error>)
    ensures
        read is Ok <==> r is Ok,
        read matches Ok(d) ==> r == Ok::<Date, Error>(d),
        read matches Err(e) ==> r == Err::<Date, Error>(Error::InvalidDate(e)),
{
    match read {
        Ok(d) => Ok(d),
        Err(e) => Err(Error::InvalidDate(e)),
    }
}

/// Writes a date as `%Y%m%d`: for the years 0 to 9999, four digits of year, two of month and
/// two of day.
pub fn ser_from_naive_date(date: &Date) -> (r: String)
    requires
        date.is_valid(),
    ensures
        r@ == written_date(date.year as int, date.month as nat, date.day as nat),
{
    format_date(date, "%Y%m%d")
}

/// The number a boolean field is written as: `1` for `true`, `0` for `false`.
pub open spec fn bool_as_u8(v: bool) -> u8 {
    if v {
        1
    } else {
        0
    }
}

/// The boolean a number field is read as: `false` for `0`, `true` for any other number.
pub open spec fn u8_as_bool(i: u8) -> bool {
    i != 0
}

/// Serialises a boolean field as the number `1` or `0`.
pub fn ser_from_bool(v: &bool) -> (r: u8)
    ensures
        r == bool_as_u8(*v),
        *v ==> r == 1,
        !*v ==> r == 0,
{
    if *v {
        1
    } else {
        0
    }
}

/// Reads a boolean field from a number: any number but `0` is `true`.
pub fn de_from_u8(i: u8) -> (r: bool)
    ensures
        r == u8_as_bool(i),
        r <==> i != 0,
{
    i != 0
}

/// A boolean written by `ser_from_bool` is read back unchanged by `de_from_u8`.
pub proof fn lemma_bool_round_trip(v: bool)
    ensures
        u8_as_bool(bool_as_u8(v)) == v,
{
}

/// A field that is missing is read as the default value of its type.
pub fn de_with_empty_default<T: Default>(opt: Option<T>) -> (r: T)
    ensures
        opt matches Some(v) ==> r == v,
        opt is None ==> call_ensures(T::default, (), r),
{
    match opt {
        Some(v) => v,
        None => T::default(),
    }
}

/// A field that fails to be read is read as missing: the outcome is always a success.
pub fn de_with_invalid_option<T, E>(read: Result<Option<T>, E>) -> (r: Result<Option<T>, E>)
    ensures
        r == Ok::<Option<T>, E>(
            match read {
                Ok(o) => o,
                Err(_) => None,
            },
        ),
{
    match read {
        Ok(o) => Ok(o),
        Err(_) => Ok(None),
    }
}

/// A field that is missing, or fails to be read, is read as the default value of its type.
pub fn de_with_empty_or_invalid_default<T: Default, E>(read: Result<Option<T>, E>) -> (r: Result<
    T,
    E,
>)
    ensures
        r is Ok,
        read matches Ok(Some(v)) ==> r == Ok::<T, E>(v),
        !(read matches Ok(Some(_))) ==> (r matches Ok(v) && call_ensures(T::default, (), v)),
{
    match de_with_invalid_option(read) {
        Ok(opt) => Ok(de_with_empty_default(opt)),
        Err(e) => Err(e),
    }
}
/// The collection of the objects read from a file, in order. It is refused, with the
/// identifier, when an object carries an identifier that an earlier one carries already.
pub fn make_collection_with_id<T: Id>(rows: Vec<T>) -> (r: Result<CollectionWithId<T>, Error>)
    ensures
        r is Ok <==> ids_distinct(rows@),
        r matches Ok(c) ==> c@ == rows@,
        r is Err ==> r matches Err(Error::IdentifierAlreadyExists(_)),
        r matches Err(Error::IdentifierAlreadyExists(id)) ==> exists|j: int|
            is_first_repeat(rows@, j) && #[trigger] rows@[j].spec_id() == id@,
{
    CollectionWithId::new(rows)
}

/// Like `make_collection_with_id` for a file that may be absent (`None`): an absent file gives
/// an empty collection.
pub fn make_opt_collection_with_id<T: Id>(rows: Option<Vec<T>>) -> (r: Result<
    CollectionWithId<T>,
    Error,
>)
    ensures
        rows is None ==> (r matches Ok(c) && c@ == Seq::<T>::empty()),
        rows matches Some(v) ==> (r is Ok <==> ids_distinct(v@)),
        rows matches Some(v) ==> (r matches Ok(c) ==> c@ == v@),
        r is Err ==> r matches Err(Error::IdentifierAlreadyExists(_)),
        rows matches Some(v) ==> (r matches Err(Error::IdentifierAlreadyExists(id)) ==> exists|
            j: int,
        | is_first_repeat(v@, j) && #[trigger] v@[j].spec_id() == id@),
{
    match rows {
        Some(v) => make_collection_with_id(v),
        None => Ok(CollectionWithId::default()),
    }
}

/// The collection of the objects read from a file, in order.
pub fn make_collection<T>(rows: Vec<T>) -> (r: Collection<T>)
    ensures
        r@ == rows@,
{
    Collection::new(rows)
}

/// Like `make_collection` for a file that may be absent (`None`): an absent file gives an
/// empty collection.
pub fn make_opt_collection<T>(rows: Option<Vec<T>>) -> (r: Collection<T>)
    ensures
        rows is None ==> r@ == Seq::<T>::empty(),
        rows matches Some(v) ==> r@ == v@,
{
    match rows {
        Some(v) => make_collection(v),
        None => Collection::default(),
    }
}

/// `ps` holds the objects of `s`, in order, each with `prefix` added: its identifier is
/// `prefix` followed by the old one.
pub open spec fn prefixed_all<T: AddPrefix>(ps: Seq<T>, s: Seq<T>, prefix: Seq<char>) -> bool {
    &&& ps.len() == s.len()
    &&& forall|i: int| 0 <= i < s.len() ==> #[trigger] ps[i].is_prefixed(s[i], prefix)
    &&& forall|i: int| 0 <= i < s.len() ==> #[trigger] ps[i].spec_id() == prefix + s[i].spec_id()
}

/// Adds `prefix` to every object of `objects`, in place.
fn add_prefix_to_all<T: AddPrefix>(objects: &mut Vec<T>, prefix: &str)
    ensures
        prefixed_all(final(objects)@, old(objects)@, prefix@),
        forall|i: int|
            0 <= i < old(objects)@.len() ==> #[trigger] final(objects)@[i].spec_id() == prefix@
                + old(objects)@[i].spec_id(),
{
    let n = objects.len();
    let ghost orig = objects@;
    for i in 0..n
        invariant
            n == orig.len(),
            objects@.len() == n,
            forall|k: int| 0 <= k < i ==> #[trigger] objects@[k].is_prefixed(orig[k], prefix@),
            forall|k: int| 0 <= k < i ==> #[trigger] objects@[k].spec_id() == prefix@ + orig[k].spec_id(),
            forall|k: int| i <= k < n ==> #[trigger] objects@[k] == orig[k],
    {
        objects[i].add_prefix(prefix);
    }
}

/// Adds `prefix` to every object of `collection`, in place and in order.
pub fn add_prefix_to_collection<T: AddPrefix>(collection: &mut Collection<T>, prefix: &str)
    ensures
        prefixed_all(final(collection)@, old(collection)@, prefix@),
        final(collection)@.len() == old(collection)@.len(),
        forall|i: int|
            0 <= i < old(collection)@.len() ==> #[trigger] final(collection)@[i].spec_id()
                == prefix@ + old(collection)@[i].spec_id(),
{
    let mut objects = collection.take();
    add_prefix_to_all(&mut objects, prefix);
    *collection = Collection::new(objects);
}

/// Adds `prefix` to every object of `collection` and rebuilds it. When two prefixed objects
/// share an identifier, the rebuilding is refused with that identifier and the collection is
/// left empty.
pub fn add_prefix_to_collection_with_id<T: AddPrefix + Id>(
    collection: &mut CollectionWithId<T>,
    prefix: &str,
) -> (r: Result<(), Error>)
    ensures
        ids_distinct(old(collection)@),
        exists|ps: Seq<T>|
            {
                &&& prefixed_all(ps, old(collection)@, prefix@)
                &&& r is Ok <==> ids_distinct(ps)
                &&& r is Ok ==> final(collection)@ == ps
                &&& r matches Err(Error::IdentifierAlreadyExists(id)) ==> exists|j: int|
                    is_first_repeat(ps, j) && #[trigger] ps[j].spec_id() == id@
            },
        r is Err ==> final(collection)@ == Seq::<T>::empty(),
        r is Err ==> r matches Err(Error::IdentifierAlreadyExists(_)),
        r is Ok,
        final(collection)@.len() == old(collection)@.len(),
        forall|i: int|
            0 <= i < old(collection)@.len() ==> #[trigger] final(collection)@[i].spec_id()
                == prefix@ + old(collection)@[i].spec_id(),
        prefixed_all(final(collection)@, old(collection)@, prefix@),
{
    collection.ids_are_distinct();
    let mut objects = collection.take();
    let ghost before = objects@;
    add_prefix_to_all(&mut objects, prefix);
    proof {
        lemma_prefix_keeps_ids_distinct(objects@, before, prefix@);
    }
    match CollectionWithId::new(objects) {
        Ok(c) => {
            *collection = c;
            Ok(())
        },
        Err(e) => Err(e),
    }
}

/// Adding a prefix that goes in front of identifiers keeps distinct identifiers distinct, so
/// that `add_prefix_to_collection_with_id` then succeeds.
pub proof fn lemma_prefix_keeps_ids_distinct<T: AddPrefix + Id>(
    ps: Seq<T>,
    s: Seq<T>,
    prefix: Seq<char>,
)
    requires
        ids_distinct(s),
        prefixed_all(ps, s, prefix),
    ensures
        ids_distinct(ps),
{
    assert forall|a: int, b: int| 0 <= a < b < ps.len() implies #[trigger] ps[a].spec_id()
        != #[trigger] ps[b].spec_id() by {
        assert(s[a].spec_id() != s[b].spec_id());
        if ps[a].spec_id() == ps[b].spec_id() {
            assert((prefix + s[a].spec_id()).skip(prefix.len() as int) =~= s[a].spec_id());
            assert((prefix + s[b].spec_id()).skip(prefix.len() as int) =~= s[b].spec_id());
        }
    }
}

} // verus!
