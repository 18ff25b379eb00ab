//! The marketplaces the service is offered in.

use vstd::prelude::*;
use vstd::string::*;
use crate::text::text_eq;

verus! {

/// One marketplace: its country code, the domain suffix of its hosts and
/// the vendor's marketplace identifier.
#[derive(Clone, Debug)]
pub struct Locale {
    pub country_code: String,
    pub domain: String,
    pub market_place_id: String,
}

/// The mathematical value of a [`Locale`].
pub struct LocaleView {
    pub country_code: Seq<char>,
    pub domain: Seq<char>,
    pub market_place_id: Seq<char>,
}

impl View for Locale {
    type V = LocaleView;

    open spec fn view(&self) -> LocaleView {
        LocaleView {
            country_code: self.country_code@,
            domain: self.domain@,
            market_place_id: self.market_place_id@,
        }
    }
}

/// A row of the locale table: the marketplace's name and its locale.
pub open spec fn row(name: &str, country_code: &str, domain: &str, market_place_id: &str) -> (
    Seq<char>,
    LocaleView,
) {
    (
        name@,
        LocaleView {
            country_code: country_code@,
            domain: domain@,
            market_place_id: market_place_id@,
        },
    )
}

/// The locale table, by marketplace name.
pub open spec fn locale_table() -> Seq<(Seq<char>, LocaleView)> {
    seq![
        row("germany", "de", "de", "AN7V1F1VY261K"),
        row("united_states", "us", "com", "AF2M0KC94RCEA"),
        row("united_kingdom", "uk", "co.uk", "A2I9A3Q2GNFNGQ"),
        row("france", "fr", "fr", "A2728XDNODOQ8T"),
        row("canada", "ca", "ca", "A2CQZ5RBY40XE"),
        row("italy", "it", "it", "A2N7FU2W2BU2ZC"),
        row("australia", "au", "com.au", "AN7EY7DTAW63G"),
        row("india", "in", "in", "AJO3FBRUE6J4S"),
        row("japan", "jp", "co.jp", "A1QAP3MOU4173J"),
        row("spain", "es", "es", "ALMIKO4SZCSAR"),
        row("brazil", "br", "com.br", "A10J1VAYUDTYRN"),
    ]
}

/// The first row of `table` from index `from` on whose country code is
/// `country_code`, if there is one.
pub open spec fn by_country_code(
    table: Seq<(Seq<char>, LocaleView)>,
    country_code: Seq<char>,
    from: int,
) -> Option<LocaleView>
    decreases table.len() - from,
{
    if from < 0 || from >= table.len() {
        None
    } else if table[from].1.country_code == country_code {
        Some(table[from].1)
    } else {
        by_country_code(table, country_code, from + 1)
    }
}

/// The first row of `table` from index `from` on whose name is `name`.
pub open spec fn by_name(table: Seq<(Seq<char>, LocaleView)>, name: Seq<char>, from: int) -> Option<
    LocaleView,
>
    decreases table.len() - from,
{
    if from < 0 || from >= table.len() {
        None
    } else if table[from].0 == name {
        Some(table[from].1)
    } else {
        by_name(table, name, from + 1)
    }
}

/// No two rows of the locale table have the same country code, so a
/// country code finds at most one locale.
pub proof fn lemma_country_codes_distinct()
    ensures
        forall|i: int, j: int|
            0 <= i < j < locale_table().len() ==> (#[trigger] locale_table()[i]).1.country_code != (
            #[trigger] locale_table()[j]).1.country_code,
{
    reveal_strlit("de");
    reveal_strlit("us");
    reveal_strlit("uk");
    reveal_strlit("fr");
    reveal_strlit("ca");
    reveal_strlit("it");
    reveal_strlit("au");
    reveal_strlit("in");
    reveal_strlit("jp");
    reveal_strlit("es");
    reveal_strlit("br");
    let t = locale_table();
    assert(t[0].1.country_code[0] == 'd' && t[0].1.country_code[1] == 'e');
    assert(t[1].1.country_code[0] == 'u' && t[1].1.country_code[1] == 's');
    assert(t[2].1.country_code[0] == 'u' && t[2].1.country_code[1] == 'k');
    assert(t[3].1.country_code[0] == 'f' && t[3].1.country_code[1] == 'r');
    assert(t[4].1.country_code[0] == 'c' && t[4].1.country_code[1] == 'a');
    assert(t[5].1.country_code[0] == 'i' && t[5].1.country_code[1] == 't');
    assert(t[6].1.country_code[0] == 'a' && t[6].1.country_code[1] == 'u');
    assert(t[7].1.country_code[0] == 'i' && t[7].1.country_code[1] == 'n');
    assert(t[8].1.country_code[0] == 'j' && t[8].1.country_code[1] == 'p');
    assert(t[9].1.country_code[0] == 'e' && t[9].1.country_code[1] == 's');
    assert(t[10].1.country_code[0] == 'b' && t[10].1.country_code[1] == 'r');
}

/// The view of an optional locale.
pub open spec fn locale_option_view(l: Option<Locale>) -> Option<LocaleView> {
    match l {
        Some(l) => Some(l@),
        None => None,
    }
}

fn make_row(name: &str, country_code: &str, domain: &str, market_place_id: &str) -> (r: (
    String,
    Locale,
))
    ensures
        (r.0@, r.1@) == row(name, country_code, domain, market_place_id),
{
    (
        String::from_str(name),
        Locale {
            country_code: String::from_str(country_code),
            domain: String::from_str(domain),
            market_place_id: String::from_str(market_place_id),
        },
    )
}

/// The view of an executable table.
pub open spec fn table_view(t: Seq<(String, Locale)>) -> Seq<(Seq<char>, LocaleView)> {
    Seq::new(t.len(), |i: int| (t[i].0@, t[i].1@))
}

/// The locale table as a vector of (marketplace name, locale) rows.
pub fn locales() -> (t: Vec<(String, Locale)>)
    ensures
        table_view(t@) == locale_table(),
{
    let mut t: Vec<(String, Locale)> = Vec::new();
    t.push(make_row("germany", "de", "de", "AN7V1F1VY261K"));
    t.push(make_row("united_states", "us", "com", "AF2M0KC94RCEA"));
    t.push(make_row("united_kingdom", "uk", "co.uk", "A2I9A3Q2GNFNGQ"));
    t.push(make_row("france", "fr", "fr", "A2728XDNODOQ8T"));
    t.push(make_row("canada", "ca", "ca", "A2CQZ5RBY40XE"));
    t.push(make_row("italy", "it", "it", "A2N7FU2W2BU2ZC"));
    t.push(make_row("australia", "au", "com.au", "AN7EY7DTAW63G"));
    t.push(make_row("india", "in", "in", "AJO3FBRUE6J4S"));
    t.push(make_row("japan", "jp", "co.jp", "A1QAP3MOU4173J"));
    t.push(make_row("spain", "es", "es", "ALMIKO4SZCSAR"));
    t.push(make_row("brazil", "br", "com.br", "A10J1VAYUDTYRN"));
    assert(table_view(t@) =~= locale_table());
    t
}

/// The locale whose country code is `country_code`, or `None` when the
/// table has no such row.
pub fn find_by_country_code(country_code: &str) -> (found: Option<Locale>)
    ensures
        locale_option_view(found) == by_country_code(locale_table(), country_code@, 0),
{
    let mut t = locales();
    let ghost table = locale_table();
    while t.len() > 0
        invariant
            t.len() <= table.len(),
            table == locale_table(),
            table_view(t@) =~= table.skip(table.len() - t.len()),
            by_country_code(table, country_code@, table.len() - t.len()) == by_country_code(
                table,
                country_code@,
                0,
            ),
        decreases t.len(),
    {
        let ghost before = t@;
        let (_, locale) = t.remove(0);
        proof {
            let k = table.len() - before.len();
            assert(table_view(before)[0] == table.skip(k)[0]);
            assert(locale@ == table[k].1);
            assert forall|i: int| 0 <= i < t@.len() implies table_view(t@)[i] == table.skip(
                k + 1,
            )[i] by {
                assert(table_view(before)[i + 1] == table.skip(k)[i + 1]);
            }
        }
        if text_eq(locale.country_code.as_str(), country_code) {
            return Some(locale);
        }
    }
    None
}

/// The locale of the marketplace called `name`, or `None` when the table
/// has no such row.
pub fn find_by_name(name: &str) -> (found: Option<Locale>)
    ensures
        locale_option_view(found) == by_name(locale_table(), name@, 0),
{
    let mut t = locales();
    let ghost table = locale_table();
    while t.len() > 0
        invariant
            t.len() <= table.len(),
            table == locale_table(),
            table_view(t@) =~= table.skip(table.len() - t.len()),
            by_name(table, name@, table.len() - t.len()) == by_name(table, name@, 0),
        decreases t.len(),
    {
        let ghost before = t@;
        let (row_name, locale) = t.remove(0);
        proof {
            let k = table.len() - before.len();
            assert(table_view(before)[0] == table.skip(k)[0]);
            assert(locale@ == table[k].1);
            assert(row_name@ == table[k].0);
            assert forall|i: int| 0 <= i < t@.len() implies table_view(t@)[i] == table.skip(
                k + 1,
            )[i] by {
                assert(table_view(before)[i + 1] == table.skip(k)[i + 1]);
            }
        }
        if text_eq(row_name.as_str(), name) {
            return Some(locale);
        }
    }
    None
}

} // verus!
