//! Supported payment currency configuration.
//!
//! Administrators define the accepted payment currencies, kept as one list
//! under `SupportedCurrencies`.  The list never holds a currency twice.

use vstd::prelude::*;

use crate::errors::Error;
use crate::ledger::{Ledger, LedgerView};
use crate::lists::{
    contains_item, lemma_without_absent, lemma_without_contents, lemma_without_push, without,
    without_item,
};
use crate::table::Duplicate;
use crate::types::Address;

verus! {

/// The currency list a ledger reports (empty when unset).
pub open spec fn currencies_of(s: LedgerView) -> Seq<Seq<char>> {
    match s.supported_currencies {
        Some(l) => l,
        None => Seq::empty(),
    }
}

/// The ledger after storing `list` as the currency list.
pub open spec fn ledger_with_currencies(s: LedgerView, list: Seq<Seq<char>>) -> LedgerView {
    LedgerView { supported_currencies: Some(list), ..s }
}

/// The outcome of adding `c`: refused when it is already listed.
pub open spec fn add_currency_result(s: LedgerView, c: Seq<char>) -> Result<(), Error> {
    if currencies_of(s).contains(c) {
        Err(Error::DuplicateCurrency)
    } else {
        Ok(())
    }
}

/// The outcome of removing `c`: refused when it is not listed.
pub open spec fn remove_currency_result(s: LedgerView, c: Seq<char>) -> Result<(), Error> {
    if currencies_of(s).contains(c) {
        Ok(())
    } else {
        Err(Error::CurrencyNotFound)
    }
}

/// A list in which no currency occurs twice.
pub open spec fn no_duplicates(list: Seq<Seq<char>>) -> bool {
    forall|i: int, j: int| 0 <= i < j < list.len() ==> list[i] != list[j]
}

/// Add a payment currency to the supported list.
///
/// Prevents duplicates — returns [`Error::DuplicateCurrency`], leaving the
/// ledger as it was, if it is already present.
pub fn add_currency(store: &mut Ledger, currency: Address) -> (r: Result<(), Error>)
    ensures
        r == add_currency_result(old(store)@, currency@),
        r is Err ==> final(store)@ == old(store)@,
        r is Ok ==> final(store)@ == ledger_with_currencies(
            old(store)@,
            currencies_of(old(store)@).push(currency@),
        ),
{
    let mut currencies = get_currencies(store);
    if contains_item(&currencies, &currency) {
        return Err(Error::DuplicateCurrency);
    }
    let ghost before = currencies.deep_view();
    currencies.push(currency);
    proof {
        assert(currencies.deep_view() =~= before.push(currency@));
    }
    store.supported_currencies = Some(currencies);
    Ok(())
}

/// Remove a payment currency from the supported list.
///
/// Returns [`Error::CurrencyNotFound`], leaving the ledger as it was, if the
/// currency is not in the list.
pub fn remove_currency(store: &mut Ledger, currency: &Address) -> (r: Result<(), Error>)
    ensures
        r == remove_currency_result(old(store)@, currency@),
        r is Err ==> final(store)@ == old(store)@,
        r is Ok ==> final(store)@ == ledger_with_currencies(
            old(store)@,
            without(currencies_of(old(store)@), currency@),
        ),
{
    let currencies = get_currencies(store);
    let (new_list, found) = without_item(&currencies, currency);
    if !found {
        return Err(Error::CurrencyNotFound);
    }
    store.supported_currencies = Some(new_list);
    Ok(())
}

/// Get the list of supported payment currencies.
pub fn get_currencies(store: &Ledger) -> (r: Vec<Address>)
    ensures
        r.deep_view() == currencies_of(store@),
{
    match &store.supported_currencies {
        Some(list) => list.duplicate(),
        None => {
            let empty: Vec<Address> = Vec::new();
            assert(empty.deep_view() =~= Seq::<Seq<char>>::empty());
            empty
        },
    }
}

/// Check if a currency is in the supported list.
pub fn is_supported(store: &Ledger, currency: &Address) -> (r: bool)
    ensures
        r == currencies_of(store@).contains(currency@),
{
    let currencies = get_currencies(store);
    contains_item(&currencies, currency)
}

/// An added currency is supported; a removed one is not; every other
/// currency keeps its status either way.
pub proof fn law_currency_membership(s: LedgerView, c: Seq<char>, other: Seq<char>)
    ensures
        currencies_of(ledger_with_currencies(s, currencies_of(s).push(c))).contains(c),
        !currencies_of(ledger_with_currencies(s, without(currencies_of(s), c))).contains(c),
        other != c ==> (currencies_of(
            ledger_with_currencies(s, currencies_of(s).push(c)),
        ).contains(other) == currencies_of(s).contains(other)),
        other != c ==> (currencies_of(
            ledger_with_currencies(s, without(currencies_of(s), c)),
        ).contains(other) == currencies_of(s).contains(other)),
{
    let l = currencies_of(s);
    assert(l.push(c)[l.len() as int] == c);
    lemma_without_contents(l, c);
    if other != c {
        if l.push(c).contains(other) {
            let i = choose|i: int| 0 <= i < l.len() + 1 && #[trigger] l.push(c)[i] == other;
            assert(l[i] == other);
        }
        if l.contains(other) {
            let i = choose|i: int| 0 <= i < l.len() && #[trigger] l[i] == other;
            assert(l.push(c)[i] == other);
        }
    }
}

/// A currency just added cannot be added again, and one just removed cannot
/// be removed again.
pub proof fn law_currency_second_call_refused(s: LedgerView, c: Seq<char>)
    ensures
        add_currency_result(ledger_with_currencies(s, currencies_of(s).push(c)), c) == Err::<
            (),
            Error,
        >(Error::DuplicateCurrency),
        remove_currency_result(ledger_with_currencies(s, without(currencies_of(s), c)), c) == Err::<
            (),
            Error,
        >(Error::CurrencyNotFound),
{
    law_currency_membership(s, c, c);
}

/// Adding a currency that was not supported and then removing it gives back
/// the list as it was.
pub proof fn law_currency_add_then_remove(s: LedgerView, c: Seq<char>)
    requires
        !currencies_of(s).contains(c),
    ensures
        without(currencies_of(ledger_with_currencies(s, currencies_of(s).push(c))), c)
            == currencies_of(s),
{
    lemma_without_push(currencies_of(s), c);
    lemma_without_absent(currencies_of(s), c);
}

/// Adding only currencies that are not yet listed, and removing, keep the
/// list free of duplicates.
pub proof fn law_currency_list_has_no_duplicates(s: LedgerView, c: Seq<char>)
    requires
        no_duplicates(currencies_of(s)),
    ensures
        !currencies_of(s).contains(c) ==> no_duplicates(currencies_of(s).push(c)),
        no_duplicates(without(currencies_of(s), c)),
{
    let l = currencies_of(s);
    if !l.contains(c) {
        assert forall|i: int, j: int| 0 <= i < j < l.push(c).len() implies l.push(c)[i] != l.push(
            c,
        )[j] by {
            if j == l.len() {
                assert(l[i] == l.push(c)[i]);
                if l[i] == c {
                    assert(l.contains(c));
                }
            }
        }
    }
    lemma_without_no_duplicates(l, c);
}

/// Taking items out of a list without duplicates leaves none.
proof fn lemma_without_no_duplicates(l: Seq<Seq<char>>, c: Seq<char>)
    requires
        no_duplicates(l),
    ensures
        no_duplicates(without(l, c)),
    decreases l.len(),
{
    if l.len() > 0 {
        let t = l.drop_last();
        assert(no_duplicates(t)) by {
            assert forall|i: int, j: int| 0 <= i < j < t.len() implies t[i] != t[j] by {
                assert(t[i] == l[i] && t[j] == l[j]);
            }
        }
        lemma_without_no_duplicates(t, c);
        if l.last() != c {
            let w = without(t, c);
            lemma_without_contents(t, c);
            assert(!t.contains(l.last())) by {
                if t.contains(l.last()) {
                    let i = choose|i: int| 0 <= i < t.len() && #[trigger] t[i] == l.last();
                    assert(l[i] == l[l.len() - 1]);
                }
            }
            assert forall|i: int, j: int| 0 <= i < j < w.push(l.last()).len() implies w.push(
                l.last(),
            )[i] != w.push(l.last())[j] by {
                if j == w.len() {
                    assert(w.push(l.last())[i] == w[i]);
                    if w[i] == l.last() {
                        assert(w.contains(l.last()));
                    }
                }
            }
        }
    }
}

} // verus!
