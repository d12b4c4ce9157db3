//! Filtering the store's promotional catalog down to the titles that are
//! free at a given reference instant.
//!
//! The catalog document arrives as a list of elements, each with a title and
//! an optional list of promotion-offer groups; each group holds individual
//! offers with a start date, an end date (both RFC 3339 strings) and the
//! discounted share of the price in percent. An element is currently free
//! iff any of its offers has a window that strictly contains the reference
//! instant and a discounted share of zero.

use vstd::prelude::*;

use crate::{Game, Platform};

verus! {

/// One promotional offer: its window as the RFC 3339 strings the catalog
/// carries, and the discounted share of the price in percent (0 means the
/// title is fully free while the window is active).
#[derive(Clone, Debug)]
pub struct PromotionalOffer {
    pub start_date: String,
    pub end_date: String,
    pub discount_percentage: u8,
}

/// One catalog element: a title, with its groups of promotional offers, or
/// with no promotions at all.
#[derive(Clone, Debug)]
pub struct CatalogElement {
    pub title: String,
    pub promotions: Option<Vec<Vec<PromotionalOffer>>>,
}

/// An offer's window resolved to instants, in milliseconds since the Unix
/// epoch.
#[derive(Clone, Copy, Debug, PartialEq, Eq, Structural)]
pub struct OfferWindow {
    pub start_millis: i64,
    pub end_millis: i64,
    pub discount_percentage: u8,
}

/// Why a catalog document was rejected as malformed.
#[derive(Clone, Copy, Debug, PartialEq, Eq, Structural)]
pub enum CatalogError {
    InvalidDate,
}

/// The instant that an RFC 3339 date-and-time string denotes, in
/// milliseconds since the Unix epoch, or `None` when the string is not a
/// valid RFC 3339 date-and-time. The value depends on the string alone.
pub uninterp spec fn rfc3339_millis(s: Seq<char>) -> Option<i64>;

/// Relies on chrono's `DateTime::parse_from_rfc3339`, which accepts exactly
/// the valid RFC 3339 date-and-time strings, and `timestamp_millis`, which
/// maps the parsed instant to milliseconds since the Unix epoch; both are
/// functions of the string alone.
#[verifier::external_body]
fn parse_rfc3339_millis(s: &str) -> (r: Option<i64>)
    ensures
        r == rfc3339_millis(s@),
{
    match chrono::DateTime::parse_from_rfc3339(s) {
        Ok(d) => Some(d.timestamp_millis()),
        Err(_) => None,
    }
}

/// Both dates of the offer are valid RFC 3339 date-and-time strings.
pub open spec fn offer_dates_ok(o: PromotionalOffer) -> bool {
    rfc3339_millis(o.start_date@) is Some && rfc3339_millis(o.end_date@) is Some
}

/// The window the offer's dates denote. Meaningful when `offer_dates_ok`.
pub open spec fn offer_window(o: PromotionalOffer) -> OfferWindow {
    OfferWindow {
        start_millis: rfc3339_millis(o.start_date@)->0,
        end_millis: rfc3339_millis(o.end_date@)->0,
        discount_percentage: o.discount_percentage,
    }
}

/// A window makes a title free at `now_millis` iff the instant lies strictly
/// between start and end and the discounted share of the price is zero.
pub open spec fn window_active(w: OfferWindow, now_millis: i64) -> bool {
    w.start_millis < now_millis && now_millis < w.end_millis && w.discount_percentage == 0
}

/// The offer qualifies its element at `now_millis`.
pub open spec fn offer_qualifies(o: PromotionalOffer, now_millis: i64) -> bool {
    offer_dates_ok(o) && window_active(offer_window(o), now_millis)
}

pub open spec fn group_dates_ok(g: Seq<PromotionalOffer>) -> bool {
    forall|i: int| 0 <= i < g.len() ==> offer_dates_ok(#[trigger] g[i])
}

pub open spec fn group_has_qualifying(g: Seq<PromotionalOffer>, now_millis: i64) -> bool {
    exists|i: int| 0 <= i < g.len() && offer_qualifies(#[trigger] g[i], now_millis)
}

/// Every date in the element's offers is a valid RFC 3339 string. An element
/// without promotions carries no offer dates.
pub open spec fn element_dates_ok(e: CatalogElement) -> bool {
    e.promotions is Some ==> forall|i: int|
        0 <= i < e.promotions->0@.len() ==> group_dates_ok((#[trigger] e.promotions->0@[i])@)
}

/// The element is currently free: it has promotions and some offer in some
/// group qualifies at `now_millis`. An element without promotions never
/// qualifies.
pub open spec fn element_qualifies(e: CatalogElement, now_millis: i64) -> bool {
    &&& e.promotions is Some
    &&& exists|i: int|
        0 <= i < e.promotions->0@.len() && group_has_qualifying(
            (#[trigger] e.promotions->0@[i])@,
            now_millis,
        )
}

pub open spec fn catalog_dates_ok(es: Seq<CatalogElement>) -> bool {
    forall|i: int| 0 <= i < es.len() ==> element_dates_ok(#[trigger] es[i])
}

/// The titles of the currently free elements, in catalog order, duplicates
/// kept.
pub open spec fn free_titles(es: Seq<CatalogElement>, now_millis: i64) -> Seq<Seq<char>>
    decreases es.len(),
{
    if es.len() == 0 {
        Seq::empty()
    } else {
        let prefix = free_titles(es.drop_last(), now_millis);
        if element_qualifies(es.last(), now_millis) {
            prefix.push(es.last().title@)
        } else {
            prefix
        }
    }
}

/// Whether the offer qualifies at `now_millis`, or an error when either of
/// its dates is not a valid RFC 3339 string.
fn check_offer(o: &PromotionalOffer, now_millis: i64) -> (r: Result<bool, CatalogError>)
    ensures
        r is Ok <==> offer_dates_ok(*o),
        r is Ok ==> r->Ok_0 == offer_qualifies(*o, now_millis),
        r is Err ==> r->Err_0 == CatalogError::InvalidDate,
{
    let start = parse_rfc3339_millis(o.start_date.as_str());
    let end = parse_rfc3339_millis(o.end_date.as_str());
    match (start, end) {
        (Some(s), Some(e)) => Ok(s < now_millis && now_millis < e && o.discount_percentage == 0),
        _ => Err(CatalogError::InvalidDate),
    }
}

/// Whether the element is currently free, or an error when any date in any
/// of its offers is malformed. Every offer is examined, as the catalog
/// parser validates every date of the document it accepts.
fn check_element(e: &CatalogElement, now_millis: i64) -> (r: Result<bool, CatalogError>)
    ensures
        r is Ok <==> element_dates_ok(*e),
        r is Ok ==> r->Ok_0 == element_qualifies(*e, now_millis),
        r is Err ==> r->Err_0 == CatalogError::InvalidDate,
{
    match &e.promotions {
        None => Ok(false),
        Some(groups) => {
            let mut found = false;
            let mut gi: usize = 0;
            while gi < groups.len()
                invariant
                    gi <= groups.len(),
                    e.promotions is Some,
                    e.promotions->0@ == groups@,
                    forall|k: int| 0 <= k < gi ==> group_dates_ok((#[trigger] groups@[k])@),
                    found == exists|k: int|
                        0 <= k < gi && group_has_qualifying((#[trigger] groups@[k])@, now_millis),
                decreases groups.len() - gi,
            {
                let group = &groups[gi];
                let mut found_here = false;
                let mut oi: usize = 0;
                while oi < group.len()
                    invariant
                        oi <= group.len(),
                        e.promotions is Some,
                        e.promotions->0@ == groups@,
                        group@ == groups@[gi as int]@,
                        gi < groups.len(),
                        forall|k: int| 0 <= k < oi ==> offer_dates_ok(#[trigger] group@[k]),
                        found_here == exists|k: int|
                            0 <= k < oi && offer_qualifies(#[trigger] group@[k], now_millis),
                    decreases group.len() - oi,
                {
                    match check_offer(&group[oi], now_millis) {
                        Ok(q) => {
                            found_here = found_here || q;
                        },
                        Err(err) => {
                            proof {
                                assert(!offer_dates_ok(group@[oi as int]));
                                assert(!group_dates_ok(groups@[gi as int]@));
                                assert(e.promotions->0@[gi as int] == groups@[gi as int]);
                                assert(!element_dates_ok(*e));
                            }
                            return Err(err);
                        },
                    }
                    oi = oi + 1;
                }
                proof {
                    assert(group_dates_ok(groups@[gi as int]@));
                    assert(found_here == group_has_qualifying(groups@[gi as int]@, now_millis));
                }
                found = found || found_here;
                gi = gi + 1;
            }
            Ok(found)
        },
    }
}

/// The free titles of the catalog at the reference instant, as `Game`
/// values in catalog order, duplicates kept; an error when any offer date in
/// the document is malformed.
pub fn parse_and_filter(elements: &Vec<CatalogElement>, now_millis: i64) -> (r: Result<
    Vec<Game>,
    CatalogError,
>)
    ensures
        r is Ok <==> catalog_dates_ok(elements@),
        r is Ok ==> r->Ok_0@.map_values(|g: Game| g.title@) == free_titles(
            elements@,
            now_millis,
        ),
        r is Ok ==> forall|i: int|
            0 <= i < r->Ok_0@.len() ==> (#[trigger] r->Ok_0@[i]).platform == Platform::Epic,
        r is Err ==> r->Err_0 == CatalogError::InvalidDate,
{
    let mut out: Vec<Game> = Vec::new();
    let mut i: usize = 0;
    while i < elements.len()
        invariant
            i <= elements.len(),
            forall|k: int| 0 <= k < i ==> element_dates_ok(#[trigger] elements@[k]),
            out@.map_values(|g: Game| g.title@) == free_titles(elements@.take(i as int), now_millis),
            forall|k: int| 0 <= k < out@.len() ==> (#[trigger] out@[k]).platform == Platform::Epic,
        decreases elements.len() - i,
    {
        let ghost prefix = elements@.take(i as int);
        match check_element(&elements[i], now_millis) {
            Ok(q) => {
                proof {
                    assert(elements@.take(i as int + 1).drop_last() =~= prefix);
                    assert(elements@.take(i as int + 1).last() == elements@[i as int]);
                }
                if q {
                    let game = Game {
                        title: elements[i].title.clone(),
                        platform: Platform::Epic,
                    };
                    let ghost old_out = out@;
                    out.push(game);
                    proof {
                        assert(out@.map_values(|g: Game| g.title@) =~= old_out.map_values(
                            |g: Game| g.title@,
                        ).push(elements@[i as int].title@));
                    }
                } else {
                }
            },
            Err(err) => {
                proof {
                    assert(!element_dates_ok(elements@[i as int]));
                }
                return Err(err);
            },
        }
        i = i + 1;
    }
    proof {
        assert(elements@.take(elements@.len() as int) =~= elements@);
    }
    Ok(out)
}

/// An element with no promotions field is never counted as free, and adding
/// it to a catalog leaves the free list unchanged, whatever the reference
/// instant.
pub proof fn lemma_element_without_promotions_excluded(
    es: Seq<CatalogElement>,
    e: CatalogElement,
    now_millis: i64,
)
    requires
        e.promotions is None,
    ensures
        !element_qualifies(e, now_millis),
        free_titles(es.push(e), now_millis) == free_titles(es, now_millis),
{
    assert(es.push(e).drop_last() =~= es);
    assert(es.push(e).last() == e);
}

/// An offer with a non-zero discounted share never qualifies an element,
/// even when the reference instant lies inside its window.
pub proof fn lemma_discounted_offer_never_qualifies(o: PromotionalOffer, now_millis: i64)
    requires
        o.discount_percentage != 0,
    ensures
        !offer_qualifies(o, now_millis),
{
}

/// A window that does not strictly contain the reference instant never
/// qualifies an element, whatever its discounted share.
pub proof fn lemma_window_without_now_never_qualifies(w: OfferWindow, now_millis: i64)
    requires
        now_millis <= w.start_millis || w.end_millis <= now_millis,
    ensures
        !window_active(w, now_millis),
{
}

/// An offer whose window does not strictly contain the reference instant
/// never qualifies an element, whatever its discounted share.
pub proof fn lemma_offer_outside_window_never_qualifies(o: PromotionalOffer, now_millis: i64)
    requires
        offer_dates_ok(o),
        now_millis <= offer_window(o).start_millis || offer_window(o).end_millis <= now_millis,
    ensures
        !offer_qualifies(o, now_millis),
{
}

/// An element none of whose offers qualifies, in any group, is not counted
/// as free.
pub proof fn lemma_element_without_qualifying_offer_excluded(e: CatalogElement, now_millis: i64)
    requires
        e.promotions is Some ==> forall|i: int, j: int|
            0 <= i < e.promotions->0@.len() && 0 <= j < e.promotions->0@[i]@.len()
                ==> !(#[trigger] offer_qualifies(e.promotions->0@[i]@[j], now_millis)),
    ensures
        !element_qualifies(e, now_millis),
{
    if element_qualifies(e, now_millis) {
        let groups = e.promotions->0@;
        let i = choose|i: int|
            0 <= i < groups.len() && group_has_qualifying(groups[i]@, now_millis);
        let j = choose|j: int|
            0 <= j < groups[i]@.len() && offer_qualifies(groups[i]@[j], now_millis);
        assert(!offer_qualifies(e.promotions->0@[i]@[j], now_millis));
        assert(false);
    }
}

} // verus!
