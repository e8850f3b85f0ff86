//! The billing capabilities, the same for both platforms: what each operation
//! returns for each answer of the native store.

use crate::error::{failure, unit_outcome, Error, ErrorKind, ErrorView};
use crate::native::{
    purchase_views, record_views, text_views, NativeLookup, ProductsReply, ProductsReplyView,
    PurchaseReply, PurchaseReplyView, RestoreReply, RestoreReplyView, StatusReply,
    StatusReplyView,
};
use crate::product::{Product, ProductRecord, ProductRecordView, ProductView};
use crate::purchase::{
    purchase_outcome, PurchaseResult, PurchaseView, StorePurchase, StorePurchaseView,
};
use crate::service::{initialized, BillingService};
use crate::status::{status_outcome, StatusView, SubscriptionStatus};
use vstd::prelude::*;

verus! {

/// The two platforms with a billing adapter.
#[derive(Debug, Clone, Copy, PartialEq, Eq, Structural)]
pub enum Adapter {
    Ios,
    Android,
}

/// The views of a list of products.
pub open spec fn product_views(products: Seq<Product>) -> Seq<ProductView> {
    products.map_values(|product: Product| product@)
}

/// What a product query returned, as a mathematical value.
pub open spec fn products_outcome(
    r: Result<Vec<Product>, Error>,
) -> Result<Seq<ProductView>, ErrorView> {
    match r {
        Ok(products) => Ok(product_views(products@)),
        Err(e) => Err(e@),
    }
}

/// The views of a list of purchases.
pub open spec fn result_views(purchases: Seq<PurchaseResult>) -> Seq<PurchaseView> {
    purchases.map_values(|purchase: PurchaseResult| purchase@)
}

/// What a request for the purchase history returned, as a mathematical value.
pub open spec fn history_outcome(
    r: Result<Vec<PurchaseResult>, Error>,
) -> Result<Seq<PurchaseView>, ErrorView> {
    match r {
        Ok(purchases) => Ok(result_views(purchases@)),
        Err(e) => Err(e@),
    }
}

/// The purchases that a purchase history describes, in its order, or what
/// is wrong with the first report that describes none.
pub open spec fn restored(reports: Seq<StorePurchaseView>) -> Result<Seq<PurchaseView>, ErrorView>
    decreases reports.len(),
{
    if reports.len() == 0 {
        Ok(Seq::empty())
    } else {
        match restored(reports.drop_last()) {
            Err(e) => Err(e),
            Ok(purchases) => match reports.last().to_purchase() {
                Ok(purchase) => Ok(purchases.push(purchase)),
                Err(e) => Err(e),
            },
        }
    }
}

/// Whether `purchases` are the purchases of `reports`, one for each report
/// and in the order of the reports, each of them consistent with the kind of
/// its product.
pub open spec fn consistent_history(
    reports: Seq<StorePurchaseView>,
    purchases: Seq<PurchaseView>,
) -> bool {
    &&& purchases.len() == reports.len()
    &&& forall|k: int|
        0 <= k < reports.len() ==> purchases[k] == (#[trigger] reports[k]).purchase.to_purchase()
            && purchases[k].consistent_with(reports[k].product_type)
}

/// What `restored` holds: the purchases of the reports, each consistent with
/// the kind of its product; and where it fails, some report gives an expiry
/// time to the purchase of a product that is no subscription.
pub proof fn lemma_restored(reports: Seq<StorePurchaseView>)
    ensures
        match restored(reports) {
            Ok(purchases) => consistent_history(reports, purchases),
            Err(e) => e.kind == ErrorKind::Validation && exists|k: int|
                0 <= k < reports.len() && (#[trigger] reports[k]).to_purchase() is Err
                    && reports[k].to_purchase()->Err_0 == e,
        },
    decreases reports.len(),
{
    if reports.len() > 0 {
        let front = reports.drop_last();
        lemma_restored(front);
        assert(forall|k: int| 0 <= k < front.len() ==> front[k] == reports[k]);
        match restored(front) {
            Ok(purchases) => {
                if reports.last().to_purchase() is Err {
                    assert(reports[reports.len() - 1].to_purchase() is Err);
                }
            },
            Err(e) => {
                let k = choose|k: int|
                    0 <= k < front.len() && (#[trigger] front[k]).to_purchase() is Err
                        && front[k].to_purchase()->Err_0 == e;
                assert(reports[k].to_purchase() is Err);
            },
        }
    }
}

/// Once a prefix of a history has failed, the whole history fails alike.
proof fn lemma_restored_failure_stays(reports: Seq<StorePurchaseView>, n: int)
    requires
        0 <= n <= reports.len(),
        restored(reports.take(n)) is Err,
    ensures
        restored(reports) == restored(reports.take(n)),
    decreases reports.len() - n,
{
    if n < reports.len() {
        let longer = reports.take(n + 1);
        assert(longer.drop_last() == reports.take(n));
        lemma_restored_failure_stays(reports, n + 1);
    } else {
        assert(reports.take(n) == reports);
    }
}

/// Reads every report of a purchase history.
fn read_history(reports: &Vec<StorePurchase>) -> (r: Result<Vec<PurchaseResult>, Error>)
    ensures
        history_outcome(r) == restored(purchase_views(reports@)),
{
    let ghost history = purchase_views(reports@);
    let mut purchases: Vec<PurchaseResult> = Vec::new();
    let mut i: usize = 0;
    assert(result_views(purchases@) == Seq::<PurchaseView>::empty());
    while i < reports.len()
        invariant
            i <= reports.len(),
            history == purchase_views(reports@),
            restored(history.take(i as int)) is Ok,
            restored(history.take(i as int))->Ok_0 == result_views(purchases@),
        decreases reports.len() - i,
    {
        proof {
            assert(history.take(i + 1).drop_last() == history.take(i as int));
            assert(history.take(i + 1).last() == reports@[i as int]@);
        }
        match PurchaseResult::from_store(&reports[i]) {
            Ok(purchase) => {
                let ghost before = result_views(purchases@);
                purchases.push(purchase);
                assert(result_views(purchases@) == before.push(purchase@));
            },
            Err(e) => {
                proof {
                    lemma_restored_failure_stays(history, i + 1);
                }
                return Err(e);
            },
        }
        i += 1;
    }
    proof {
        assert(history.take(i as int) == history);
    }
    Ok(purchases)
}

/// The products that a listing describes, in its order, or what is wrong
/// with the first record that describes none.
pub open spec fn catalogue(records: Seq<ProductRecordView>) -> Result<Seq<ProductView>, ErrorView>
    decreases records.len(),
{
    if records.len() == 0 {
        Ok(Seq::empty())
    } else {
        match catalogue(records.drop_last()) {
            Err(e) => Err(e),
            Ok(products) => match records.last().to_product() {
                Ok(product) => Ok(products.push(product)),
                Err(e) => Err(e),
            },
        }
    }
}

/// The position of the first product with the given id, if there is one.
pub open spec fn first_match(products: Seq<ProductView>, id: Seq<char>) -> Option<int>
    decreases products.len(),
{
    if products.len() == 0 {
        None
    } else {
        match first_match(products.drop_last(), id) {
            Some(j) => Some(j),
            None => if products.last().id == id {
                Some(products.len() - 1)
            } else {
                None
            },
        }
    }
}

/// The ids of a request, each of them once, in the order in which the
/// request first names them. A request stands for the set of its ids.
pub open spec fn distinct(ids: Seq<Seq<char>>) -> Seq<Seq<char>>
    decreases ids.len(),
{
    if ids.len() == 0 {
        Seq::empty()
    } else if ids.drop_last().contains(ids.last()) {
        distinct(ids.drop_last())
    } else {
        distinct(ids.drop_last()).push(ids.last())
    }
}

/// The products of a catalogue that were asked for, in the order in which
/// the request first names them: for each requested id the first product
/// with that id, once however often the request names the id, and nothing
/// for an id without a product.
pub open spec fn selected(ids: Seq<Seq<char>>, products: Seq<ProductView>) -> Seq<ProductView>
    decreases ids.len(),
{
    if ids.len() == 0 {
        Seq::empty()
    } else {
        let earlier = selected(ids.drop_last(), products);
        if ids.drop_last().contains(ids.last()) {
            earlier
        } else {
            match first_match(products, ids.last()) {
                None => earlier,
                Some(j) => earlier.push(products[j]),
            }
        }
    }
}

/// The products that the store resolved among the requested ids. A listing
/// with a malformed record fails the whole query, with the detail of what is
/// wrong with the first such record.
pub open spec fn resolved(
    ids: Seq<Seq<char>>,
    records: Seq<ProductRecordView>,
) -> Result<Seq<ProductView>, ErrorView> {
    match catalogue(records) {
        Ok(products) => Ok(selected(ids, products)),
        Err(e) => Err(failure(ErrorKind::ProductRetrieval, e.detail)),
    }
}

/// What `catalogue` holds: one well-formed product for each record, the one
/// that the record describes; and where it fails, the error of the first
/// record that describes no product.
pub proof fn lemma_catalogue(records: Seq<ProductRecordView>)
    ensures
        match catalogue(records) {
            Ok(products) => {
                &&& products.len() == records.len()
                &&& forall|j: int|
                    0 <= j < records.len() ==> (#[trigger] records[j]).to_product() is Ok
                        && records[j].to_product()->Ok_0 == products[j] && products[j].id
                        == records[j].id && products[j].well_formed()
            },
            Err(e) => exists|j: int|
                0 <= j < records.len() && (#[trigger] records[j]).to_product() is Err
                    && records[j].to_product()->Err_0 == e && e.kind == ErrorKind::Validation
                    && forall|k: int| 0 <= k < j ==> (#[trigger] records[k]).to_product() is Ok,
        },
    decreases records.len(),
{
    if records.len() > 0 {
        let front = records.drop_last();
        lemma_catalogue(front);
        assert(forall|k: int| 0 <= k < front.len() ==> front[k] == records[k]);
        match catalogue(front) {
            Ok(products) => {
                if records.last().to_product() is Err {
                    assert(records[records.len() - 1].to_product() is Err);
                }
            },
            Err(e) => {
                let j = choose|j: int|
                    0 <= j < front.len() && (#[trigger] front[j]).to_product() is Err
                        && front[j].to_product()->Err_0 == e && e.kind == ErrorKind::Validation
                        && forall|k: int| 0 <= k < j ==> (#[trigger] front[k]).to_product() is Ok;
                assert(records[j].to_product() is Err);
                assert forall|k: int| 0 <= k < j implies (#[trigger] records[k]).to_product()
                    is Ok by {
                    assert(front[k].to_product() is Ok);
                }
            },
        }
    }
}

/// What `first_match` finds: no product has the id, or the product found has
/// it and none before it does.
pub proof fn lemma_first_match(products: Seq<ProductView>, id: Seq<char>)
    ensures
        match first_match(products, id) {
            None => forall|k: int| 0 <= k < products.len() ==> products[k].id != id,
            Some(j) => 0 <= j < products.len() && products[j].id == id && forall|k: int|
                0 <= k < j ==> products[k].id != id,
        },
    decreases products.len(),
{
    if products.len() > 0 {
        let front = products.drop_last();
        lemma_first_match(front, id);
        assert(forall|k: int| 0 <= k < front.len() ==> front[k] == products[k]);
    }
}

/// A match in a prefix of the products is the match in all of them.
proof fn lemma_first_match_prefix(products: Seq<ProductView>, id: Seq<char>, n: int)
    requires
        0 <= n <= products.len(),
        first_match(products.take(n), id) is Some,
    ensures
        first_match(products, id) == first_match(products.take(n), id),
    decreases products.len() - n,
{
    if n < products.len() {
        let longer = products.take(n + 1);
        assert(longer.drop_last() == products.take(n));
        lemma_first_match_prefix(products, id, n + 1);
    } else {
        assert(products.take(n) == products);
    }
}

/// Once a prefix of a listing has failed, the whole listing fails alike.
proof fn lemma_catalogue_failure_stays(records: Seq<ProductRecordView>, n: int)
    requires
        0 <= n <= records.len(),
        catalogue(records.take(n)) is Err,
    ensures
        catalogue(records) == catalogue(records.take(n)),
    decreases records.len() - n,
{
    if n < records.len() {
        let longer = records.take(n + 1);
        assert(longer.drop_last() == records.take(n));
        lemma_catalogue_failure_stays(records, n + 1);
    } else {
        assert(records.take(n) == records);
    }
}

/// Whether `product` is what the store listed under the requested id
/// `ids[i]`: it is what `records[j]` describes, and `records[j]` is the first
/// record with that id.
pub open spec fn listed_as(
    ids: Seq<Seq<char>>,
    records: Seq<ProductRecordView>,
    i: int,
    j: int,
    product: ProductView,
) -> bool {
    &&& 0 <= i < ids.len()
    &&& 0 <= j < records.len()
    &&& records[j].id == ids[i]
    &&& forall|k: int| 0 <= k < j ==> (#[trigger] records[k]).id != ids[i]
    &&& product.id == ids[i]
    &&& records[j].to_product() is Ok
    &&& records[j].to_product()->Ok_0 == product
}

/// Whether no two of `products` have the same id.
pub open spec fn once_each(products: Seq<ProductView>) -> bool {
    forall|a: int, b: int|
        0 <= a < b < products.len() ==> (#[trigger] products[a]).id != (#[trigger] products[b]).id
}

/// Whether every one of `products` was listed by the store under a
/// requested id, no id being answered twice and there being no more
/// products than the request names different ids.
pub open spec fn none_made_up(
    ids: Seq<Seq<char>>,
    records: Seq<ProductRecordView>,
    products: Seq<ProductView>,
) -> bool {
    &&& products.len() <= ids.to_set().len()
    &&& once_each(products)
    &&& forall|k: int|
        0 <= k < products.len() ==> (#[trigger] products[k]).well_formed() && exists|
            i: int,
            j: int,
        | listed_as(ids, records, i, j, products[k])
}

/// What `distinct` holds: the ids of the request and no others, none of
/// them twice; so it has as many ids as the request names different ones.
pub proof fn lemma_distinct(ids: Seq<Seq<char>>)
    ensures
        distinct(ids).no_duplicates(),
        forall|id: Seq<char>| distinct(ids).contains(id) <==> ids.contains(id),
        distinct(ids).len() == ids.to_set().len(),
        ids.no_duplicates() ==> distinct(ids) == ids,
    decreases ids.len(),
{
    let once = distinct(ids);
    if ids.len() > 0 {
        let front = ids.drop_last();
        let last = ids.last();
        let earlier = distinct(front);
        lemma_distinct(front);
        assert(forall|k: int| 0 <= k < front.len() ==> front[k] == ids[k]);
        assert forall|id: Seq<char>| once.contains(id) implies ids.contains(id) by {
            let k = choose|k: int| 0 <= k < once.len() && once[k] == id;
            if k < earlier.len() {
                assert(earlier[k] == id);
                assert(earlier.contains(id));
                assert(front.contains(id));
                let m = choose|m: int| 0 <= m < front.len() && front[m] == id;
                assert(ids[m] == id);
            } else {
                assert(ids[ids.len() - 1] == id);
            }
        }
        assert forall|id: Seq<char>| ids.contains(id) implies once.contains(id) by {
            let m = choose|m: int| 0 <= m < ids.len() && ids[m] == id;
            if m < front.len() || front.contains(last) {
                if m < front.len() {
                    assert(front[m] == id);
                }
                assert(front.contains(id));
                assert(earlier.contains(id));
                let k = choose|k: int| 0 <= k < earlier.len() && earlier[k] == id;
                assert(once[k] == id);
            } else {
                assert(once[once.len() - 1] == id);
            }
        }
        if !front.contains(last) {
            assert forall|a: int, b: int|
                0 <= a < once.len() && 0 <= b < once.len() && a != b implies once[a]
                != once[b] by {
                if a < earlier.len() && b < earlier.len() {
                    assert(earlier[a] != earlier[b]);
                } else if a < earlier.len() {
                    assert(earlier.contains(earlier[a]));
                    assert(front.contains(earlier[a]));
                } else {
                    assert(earlier.contains(earlier[b]));
                    assert(front.contains(earlier[b]));
                }
            }
        }
        if ids.no_duplicates() {
            assert(!front.contains(last)) by {
                if front.contains(last) {
                    let m = choose|m: int| 0 <= m < front.len() && front[m] == last;
                    assert(ids[m] == ids[ids.len() - 1]);
                }
            }
            assert(front.no_duplicates());
            assert(once == ids);
        }
    }
    assert(once.to_set() == ids.to_set());
    once.unique_seq_to_set();
}

/// The selection answers no id twice, has no more products than the request
/// names different ids, and holds only products whose ids were requested.
proof fn lemma_selected_once_each(ids: Seq<Seq<char>>, products: Seq<ProductView>)
    ensures
        once_each(selected(ids, products)),
        selected(ids, products).len() <= distinct(ids).len(),
        forall|k: int|
            0 <= k < selected(ids, products).len() ==> ids.contains(
                (#[trigger] selected(ids, products)[k]).id,
            ),
    decreases ids.len(),
{
    let chosen = selected(ids, products);
    if ids.len() > 0 {
        let front = ids.drop_last();
        let earlier = selected(front, products);
        lemma_selected_once_each(front, products);
        lemma_first_match(products, ids.last());
        assert forall|k: int| 0 <= k < chosen.len() implies ids.contains(
            (#[trigger] chosen[k]).id,
        ) by {
            if k < earlier.len() {
                assert(chosen[k] == earlier[k]);
                assert(front.contains(earlier[k].id));
                let m = choose|m: int| 0 <= m < front.len() && front[m] == earlier[k].id;
                assert(ids[m] == chosen[k].id);
            } else {
                assert(ids[ids.len() - 1] == chosen[k].id);
            }
        }
        assert forall|a: int, b: int| 0 <= a < b < chosen.len() implies (#[trigger] chosen[a]).id
            != (#[trigger] chosen[b]).id by {
            assert(chosen[a] == earlier[a]);
            if b < earlier.len() {
                assert(chosen[b] == earlier[b]);
            } else {
                assert(front.contains(earlier[a].id));
            }
        }
    }
}

proof fn lemma_selected_only_listed(
    ids: Seq<Seq<char>>,
    records: Seq<ProductRecordView>,
    products: Seq<ProductView>,
)
    requires
        catalogue(records) is Ok,
        catalogue(records)->Ok_0 == products,
    ensures
        none_made_up(ids, records, selected(ids, products)),
    decreases ids.len(),
{
    lemma_selected_once_each(ids, products);
    lemma_distinct(ids);
    if ids.len() > 0 {
        let front = ids.drop_last();
        lemma_selected_only_listed(front, records, products);
        lemma_first_match(products, ids.last());
        lemma_catalogue(records);
        let chosen = selected(ids, products);
        let earlier = selected(front, products);
        assert forall|k: int| 0 <= k < chosen.len() implies (#[trigger] chosen[k]).well_formed()
            && exists|i: int, j: int| listed_as(ids, records, i, j, chosen[k]) by {
            if k < earlier.len() {
                assert(chosen[k] == earlier[k]);
                let (i, j) = choose|i: int, j: int| listed_as(front, records, i, j, earlier[k]);
                assert(front[i] == ids[i]);
                assert(listed_as(ids, records, i, j, chosen[k]));
            } else {
                let j = first_match(products, ids.last())->Some_0;
                assert(records[j].to_product() is Ok);
                assert forall|m: int| 0 <= m < j implies (#[trigger] records[m]).id
                    != ids.last() by {
                    assert(records[m].to_product() is Ok);
                    assert(products[m].id == records[m].id);
                }
                assert(listed_as(ids, records, ids.len() - 1, j, chosen[k]));
            }
        }
    }
}

/// A product query never makes up a product: each product it returns has an
/// id that was requested and that the store listed, and is what the store's
/// first record of that id describes. It answers each id once, however often
/// the request names it, so it returns no more products than the request
/// names different ids; each of them is well formed. Where it fails, it
/// fails with a `ProductRetrievalError`, and some record of the listing
/// describes no product.
pub proof fn lemma_resolved_only_listed(ids: Seq<Seq<char>>, records: Seq<ProductRecordView>)
    ensures
        match resolved(ids, records) {
            Ok(products) => none_made_up(ids, records, products),
            Err(e) => e.kind == ErrorKind::ProductRetrieval && exists|j: int|
                0 <= j < records.len() && (#[trigger] records[j]).to_product() is Err
                    && records[j].to_product()->Err_0.detail == e.detail,
        },
{
    lemma_catalogue(records);
    match catalogue(records) {
        Ok(products) => {
            lemma_selected_only_listed(ids, records, products);
        },
        Err(e) => {
            let j = choose|j: int|
                0 <= j < records.len() && (#[trigger] records[j]).to_product() is Err
                    && records[j].to_product()->Err_0 == e && e.kind == ErrorKind::Validation
                    && forall|k: int| 0 <= k < j ==> (#[trigger] records[k]).to_product() is Ok;
            assert(records[j].to_product()->Err_0.detail == e.detail);
        },
    }
}

/// A product query leaves out nothing that was resolved: where it succeeds,
/// every requested id that the store listed has its product in the result.
pub proof fn lemma_resolved_all_listed(
    ids: Seq<Seq<char>>,
    records: Seq<ProductRecordView>,
    i: int,
    j: int,
)
    requires
        0 <= i < ids.len(),
        0 <= j < records.len(),
        records[j].id == ids[i],
        resolved(ids, records) is Ok,
    ensures
        exists|k: int|
            0 <= k < resolved(ids, records)->Ok_0.len() && (#[trigger] resolved(
                ids,
                records,
            )->Ok_0[k]).id == ids[i],
{
    let products = catalogue(records)->Ok_0;
    lemma_catalogue(records);
    assert(records[j].to_product() is Ok);
    assert(products[j].id == ids[i]);
    lemma_selected_has(ids, products, i);
    let chosen = selected(ids, products);
    let k = choose|k: int| 0 <= k < chosen.len() && (#[trigger] chosen[k]).id == ids[i];
    assert(resolved(ids, records)->Ok_0[k].id == ids[i]);
}

proof fn lemma_selected_has(ids: Seq<Seq<char>>, products: Seq<ProductView>, i: int)
    requires
        0 <= i < ids.len(),
        exists|j: int| 0 <= j < products.len() && (#[trigger] products[j]).id == ids[i],
    ensures
        exists|k: int|
            0 <= k < selected(ids, products).len() && (#[trigger] selected(ids, products)[k]).id
                == ids[i],
    decreases ids.len(),
{
    let chosen = selected(ids, products);
    let front = ids.drop_last();
    let earlier = selected(front, products);
    lemma_first_match(products, ids.last());
    if i == ids.len() - 1 && front.contains(ids.last()) {
        let m = choose|m: int| 0 <= m < front.len() && front[m] == ids.last();
        lemma_selected_has(front, products, m);
        let k = choose|k: int| 0 <= k < earlier.len() && (#[trigger] earlier[k]).id == front[m];
        assert(chosen[k] == earlier[k]);
    } else if i == ids.len() - 1 {
        let k = chosen.len() - 1;
        assert(chosen[k].id == ids[i]);
    } else {
        assert(front[i] == ids[i]);
        lemma_selected_has(front, products, i);
        let k = choose|k: int| 0 <= k < earlier.len() && (#[trigger] earlier[k]).id == ids[i];
        assert(chosen[k] == earlier[k]);
    }
}

/// Reads every record of a listing.
fn read_listing(records: &Vec<ProductRecord>) -> (r: Result<Vec<Product>, Error>)
    ensures
        products_outcome(r) == catalogue(record_views(records@)),
{
    let ghost listed = record_views(records@);
    let mut products: Vec<Product> = Vec::new();
    let mut j: usize = 0;
    assert(product_views(products@) == Seq::<ProductView>::empty());
    while j < records.len()
        invariant
            j <= records.len(),
            listed == record_views(records@),
            catalogue(listed.take(j as int)) is Ok,
            catalogue(listed.take(j as int))->Ok_0 == product_views(products@),
        decreases records.len() - j,
    {
        proof {
            assert(listed.take(j + 1).drop_last() == listed.take(j as int));
            assert(listed.take(j + 1).last() == records@[j as int]@);
        }
        match Product::from_record(&records[j]) {
            Ok(product) => {
                let ghost before = product_views(products@);
                products.push(product);
                assert(product_views(products@) == before.push(product@));
            },
            Err(e) => {
                proof {
                    lemma_catalogue_failure_stays(listed, j + 1);
                }
                return Err(e);
            },
        }
        j += 1;
    }
    proof {
        assert(listed.take(j as int) == listed);
    }
    Ok(products)
}

/// Finds the first product with the given id.
fn find_product(products: &Vec<Product>, id: &String) -> (found: Option<usize>)
    ensures
        match first_match(product_views(products@), id@) {
            None => found is None,
            Some(j) => 0 <= j < products.len() && found == Some(j as usize),
        },
{
    let ghost views = product_views(products@);
    let mut j: usize = 0;
    while j < products.len()
        invariant
            j <= products.len(),
            views == product_views(products@),
            first_match(views.take(j as int), id@) is None,
        decreases products.len() - j,
    {
        proof {
            assert(views.take(j + 1).drop_last() == views.take(j as int));
            assert(views.take(j + 1).last() == products@[j as int]@);
        }
        if *products[j].id() == *id {
            proof {
                lemma_first_match_prefix(views, id@, j + 1);
                lemma_first_match(views, id@);
            }
            return Some(j);
        }
        j += 1;
    }
    proof {
        assert(views.take(j as int) == views);
    }
    None
}

/// Whether the request names the id at position `i` at an earlier position
/// too.
fn named_before(ids: &Vec<String>, i: usize) -> (named: bool)
    requires
        i < ids.len(),
    ensures
        named == text_views(ids@).take(i as int).contains(ids@[i as int]@),
{
    let ghost front = text_views(ids@).take(i as int);
    let mut k: usize = 0;
    while k < i
        invariant
            k <= i < ids.len(),
            front == text_views(ids@).take(i as int),
            forall|m: int| 0 <= m < k ==> front[m] != ids@[i as int]@,
        decreases i - k,
    {
        if ids[k] == ids[i] {
            assert(front[k as int] == ids@[i as int]@);
            return true;
        }
        k += 1;
    }
    false
}

/// Picks from a catalogue the products that were asked for, each once.
fn select(ids: &Vec<String>, catalogue: &Vec<Product>) -> (chosen: Vec<Product>)
    ensures
        product_views(chosen@) == selected(text_views(ids@), product_views(catalogue@)),
{
    let ghost wanted = text_views(ids@);
    let ghost products = product_views(catalogue@);
    let mut chosen: Vec<Product> = Vec::new();
    let mut i: usize = 0;
    assert(product_views(chosen@) == Seq::<ProductView>::empty());
    while i < ids.len()
        invariant
            i <= ids.len(),
            wanted == text_views(ids@),
            products == product_views(catalogue@),
            selected(wanted.take(i as int), products) == product_views(chosen@),
        decreases ids.len() - i,
    {
        proof {
            assert(wanted.take(i + 1).drop_last() == wanted.take(i as int));
            assert(wanted.take(i + 1).last() == ids@[i as int]@);
        }
        if !named_before(ids, i) {
            match find_product(catalogue, &ids[i]) {
                None => {},
                Some(j) => {
                    let ghost before = product_views(chosen@);
                    let product = catalogue[j].clone();
                    assert(products[j as int] == catalogue@[j as int]@);
                    chosen.push(product);
                    assert(product_views(chosen@) == before.push(product@));
                },
            }
        }
        i += 1;
    }
    proof {
        assert(wanted.take(i as int) == wanted);
    }
    chosen
}

/// Turns the store's listing into the products that were asked for.
fn resolve(ids: &Vec<String>, records: &Vec<ProductRecord>) -> (r: Result<Vec<Product>, Error>)
    ensures
        products_outcome(r) == resolved(text_views(ids@), record_views(records@)),
{
    match read_listing(records) {
        Ok(catalogue) => Ok(select(ids, &catalogue)),
        Err(e) => Err(Error::ProductRetrievalError(e.detail().clone())),
    }
}

impl Adapter {
    /// What a caller is told when the service has no handle yet.
    pub open spec fn spec_not_ready(self) -> Seq<char> {
        match self {
            Adapter::Ios => "Subscriptions class not found"@,
            Adapter::Android => "Subscriptions not initialized"@,
        }
    }

    /// What a caller is told when the service has no handle yet.
    pub fn not_ready(&self) -> (detail: &'static str)
        ensures
            detail@ == self.spec_not_ready(),
    {
        match self {
            Adapter::Ios => "Subscriptions class not found",
            Adapter::Android => "Subscriptions not initialized",
        }
    }

    /// The state of the service after initialization with the outcome of the
    /// native lookup, and what initialization returns: a `PlatformError` and
    /// an unchanged service where the host context or the billing class was
    /// not found, else what storing the handle gives.
    pub open spec fn spec_initialize(
        self,
        before: Option<u64>,
        lookup: NativeLookup,
    ) -> (Option<u64>, Result<(), ErrorView>) {
        match lookup {
            NativeLookup::ContextUnavailable => (
                before,
                Err(failure(ErrorKind::Platform, "Host context unavailable"@)),
            ),
            NativeLookup::ServiceNotFound => (
                before,
                Err(failure(ErrorKind::Platform, "Subscriptions class not found"@)),
            ),
            NativeLookup::Located(handle) => initialized(before, handle),
        }
    }

    /// Establishes the handle to the platform's billing singleton from the
    /// outcome of the native lookup.
    pub fn initialize(
        &self,
        service: &mut BillingService,
        lookup: NativeLookup,
    ) -> (r: Result<(), Error>)
        ensures
            final(service).handle() == self.spec_initialize(old(service).handle(), lookup).0,
            unit_outcome(r) == self.spec_initialize(old(service).handle(), lookup).1,
    {
        match lookup {
            NativeLookup::ContextUnavailable => Err(
                Error::new(ErrorKind::Platform, "Host context unavailable"),
            ),
            NativeLookup::ServiceNotFound => Err(
                Error::new(ErrorKind::Platform, "Subscriptions class not found"),
            ),
            NativeLookup::Located(handle) => service.initialize(handle),
        }
    }

    /// What a product query returns: a `PlatformError` while the service
    /// has no handle; a `ProductRetrievalError` where the native call failed,
    /// never answered, or listed a malformed record; else the products that
    /// the store resolved among the requested ids.
    pub open spec fn spec_list_products(
        self,
        handle: Option<u64>,
        ids: Seq<Seq<char>>,
        reply: ProductsReplyView,
    ) -> Result<Seq<ProductView>, ErrorView> {
        if handle is None {
            Err(failure(ErrorKind::Platform, self.spec_not_ready()))
        } else {
            match reply {
                ProductsReplyView::Unanswered => Err(
                    failure(ErrorKind::ProductRetrieval, "Failed to retrieve products"@),
                ),
                ProductsReplyView::Failed(detail) => Err(
                    failure(ErrorKind::ProductRetrieval, detail),
                ),
                ProductsReplyView::Listed(records) => resolved(ids, records),
            }
        }
    }

    /// Answers a product query from what the store replied. The requested
    /// ids are taken as a set: an id named more than once is answered once.
    pub fn list_products(
        &self,
        service: &BillingService,
        product_ids: &Vec<String>,
        reply: &ProductsReply,
    ) -> (r: Result<Vec<Product>, Error>)
        ensures
            products_outcome(r) == self.spec_list_products(
                service.handle(),
                text_views(product_ids@),
                reply@,
            ),
            r is Ok ==> reply@ is Listed && none_made_up(
                text_views(product_ids@),
                reply@->Listed_0,
                product_views(r->Ok_0@),
            ),
    {
        if let ProductsReply::Listed(records) = reply {
            proof {
                lemma_resolved_only_listed(text_views(product_ids@), record_views(records@));
            }
        }
        if !service.is_ready() {
            return Err(Error::new(ErrorKind::Platform, self.not_ready()));
        }
        match reply {
            ProductsReply::Unanswered => Err(
                Error::new(ErrorKind::ProductRetrieval, "Failed to retrieve products"),
            ),
            ProductsReply::Failed(detail) => Err(Error::ProductRetrievalError(detail.clone())),
            ProductsReply::Listed(records) => resolve(product_ids, records),
        }
    }

    /// What a purchase returns: a `PlatformError` while the service has no
    /// handle; the purchase where the flow completed for the product that was
    /// asked for, with an expiry time only if that product is a subscription;
    /// a `PurchaseError` in every other case: a purchase that was cancelled,
    /// declined, made of a product already owned, completed for another
    /// product, reported with an expiry time though the product is no
    /// subscription, or whose native call failed or never answered.
    pub open spec fn spec_purchase(
        self,
        handle: Option<u64>,
        product_id: Seq<char>,
        reply: PurchaseReplyView,
    ) -> Result<PurchaseView, ErrorView> {
        if handle is None {
            Err(failure(ErrorKind::Platform, self.spec_not_ready()))
        } else {
            match reply {
                PurchaseReplyView::Completed(report) => if report.purchase.product_id
                    != product_id {
                    Err(failure(ErrorKind::Purchase, "Purchase completed for another product"@))
                } else {
                    match report.to_purchase() {
                        Ok(purchase) => Ok(purchase),
                        Err(e) => Err(failure(ErrorKind::Purchase, e.detail)),
                    }
                },
                PurchaseReplyView::Cancelled => Err(
                    failure(ErrorKind::Purchase, "Purchase cancelled by the user"@),
                ),
                PurchaseReplyView::Declined(detail) => Err(failure(ErrorKind::Purchase, detail)),
                PurchaseReplyView::AlreadyOwned => Err(
                    failure(ErrorKind::Purchase, "Product already owned"@),
                ),
                PurchaseReplyView::Failed(detail) => Err(failure(ErrorKind::Purchase, detail)),
                PurchaseReplyView::Unanswered => Err(
                    failure(ErrorKind::Purchase, "Purchase never completed"@),
                ),
            }
        }
    }

    /// Answers a purchase request from how the native purchase flow ended.
    pub fn purchase(
        &self,
        service: &BillingService,
        product_id: &String,
        reply: &PurchaseReply,
    ) -> (r: Result<PurchaseResult, Error>)
        ensures
            purchase_outcome(r) == self.spec_purchase(service.handle(), product_id@, reply@),
            r is Ok ==> reply@ is Completed && r->Ok_0@.consistent_with(
                reply@->Completed_0.product_type,
            ),
    {
        if !service.is_ready() {
            return Err(Error::new(ErrorKind::Platform, self.not_ready()));
        }
        match reply {
            PurchaseReply::Completed(report) => {
                if report.purchase.product_id != *product_id {
                    return Err(
                        Error::new(ErrorKind::Purchase, "Purchase completed for another product"),
                    );
                }
                match PurchaseResult::from_store(report) {
                    Ok(purchase) => Ok(purchase),
                    Err(e) => Err(Error::PurchaseError(e.detail().clone())),
                }
            },
            PurchaseReply::Cancelled => Err(
                Error::new(ErrorKind::Purchase, "Purchase cancelled by the user"),
            ),
            PurchaseReply::Declined(detail) => Err(Error::PurchaseError(detail.clone())),
            PurchaseReply::AlreadyOwned => Err(
                Error::new(ErrorKind::Purchase, "Product already owned"),
            ),
            PurchaseReply::Failed(detail) => Err(Error::PurchaseError(detail.clone())),
            PurchaseReply::Unanswered => Err(
                Error::new(ErrorKind::Purchase, "Purchase never completed"),
            ),
        }
    }

    /// What a request for the purchase history returns: a `PlatformError`
    /// while the service has no handle; a `PurchaseError` where the native
    /// call failed or never answered, or where a report of the history gives
    /// an expiry time to the purchase of a product that is no subscription;
    /// else every purchase of the history, in its order.
    pub open spec fn spec_restore_purchases(
        self,
        handle: Option<u64>,
        reply: RestoreReplyView,
    ) -> Result<Seq<PurchaseView>, ErrorView> {
        if handle is None {
            Err(failure(ErrorKind::Platform, self.spec_not_ready()))
        } else {
            match reply {
                RestoreReplyView::History(reports) => match restored(reports) {
                    Ok(purchases) => Ok(purchases),
                    Err(e) => Err(failure(ErrorKind::Purchase, e.detail)),
                },
                RestoreReplyView::Failed(detail) => Err(failure(ErrorKind::Purchase, detail)),
                RestoreReplyView::Unanswered => Err(
                    failure(ErrorKind::Purchase, "Failed to restore purchases"@),
                ),
            }
        }
    }

    /// Answers a request for the purchase history from what the store replied.
    pub fn restore_purchases(
        &self,
        service: &BillingService,
        reply: &RestoreReply,
    ) -> (r: Result<Vec<PurchaseResult>, Error>)
        ensures
            history_outcome(r) == self.spec_restore_purchases(service.handle(), reply@),
            r is Ok ==> reply@ is History && consistent_history(
                reply@->History_0,
                result_views(r->Ok_0@),
            ),
    {
        if !service.is_ready() {
            return Err(Error::new(ErrorKind::Platform, self.not_ready()));
        }
        match reply {
            RestoreReply::Failed(detail) => Err(Error::PurchaseError(detail.clone())),
            RestoreReply::Unanswered => Err(
                Error::new(ErrorKind::Purchase, "Failed to restore purchases"),
            ),
            RestoreReply::History(reports) => {
                proof {
                    lemma_restored(purchase_views(reports@));
                }
                match read_history(reports) {
                    Ok(purchases) => Ok(purchases),
                    Err(e) => Err(Error::PurchaseError(e.detail().clone())),
                }
            },
        }
    }

    /// What an entitlement query returns at the time `now`: a `PlatformError`
    /// while the service has no handle; a `SubscriptionError` where the native
    /// query failed, never answered or contradicts itself; the inactive status
    /// without an expiry date where the product was never purchased; else the
    /// status that follows from the entitlement, active exactly before its
    /// expiry date.
    pub open spec fn spec_get_subscription_status(
        self,
        handle: Option<u64>,
        product_id: Seq<char>,
        reply: StatusReplyView,
        now: u64,
    ) -> Result<StatusView, ErrorView> {
        if handle is None {
            Err(failure(ErrorKind::Platform, self.spec_not_ready()))
        } else {
            match reply {
                StatusReplyView::NeverPurchased => Ok(StatusView::unpurchased(product_id)),
                StatusReplyView::Entitled(entitlement) => match StatusView::of_entitlement(
                    product_id,
                    entitlement,
                    now,
                ) {
                    Ok(status) => Ok(status),
                    Err(e) => Err(failure(ErrorKind::Subscription, e.detail)),
                },
                StatusReplyView::Failed(detail) => Err(failure(ErrorKind::Subscription, detail)),
                StatusReplyView::Unanswered => Err(
                    failure(ErrorKind::Subscription, "Failed to retrieve subscription status"@),
                ),
            }
        }
    }

    /// Answers an entitlement query from what the store replied.
    pub fn get_subscription_status(
        &self,
        service: &BillingService,
        product_id: &String,
        reply: &StatusReply,
        now: u64,
    ) -> (r: Result<SubscriptionStatus, Error>)
        ensures
            status_outcome(r) == self.spec_get_subscription_status(
                service.handle(),
                product_id@,
                reply@,
                now,
            ),
    {
        if !service.is_ready() {
            return Err(Error::new(ErrorKind::Platform, self.not_ready()));
        }
        match reply {
            StatusReply::NeverPurchased => Ok(
                SubscriptionStatus::never_purchased(product_id.as_str()),
            ),
            StatusReply::Entitled(entitlement) => {
                match SubscriptionStatus::from_entitlement(product_id.as_str(), entitlement, now) {
                    Ok(status) => Ok(status),
                    Err(e) => Err(Error::SubscriptionError(e.detail().clone())),
                }
            },
            StatusReply::Failed(detail) => Err(Error::SubscriptionError(detail.clone())),
            StatusReply::Unanswered => Err(
                Error::new(ErrorKind::Subscription, "Failed to retrieve subscription status"),
            ),
        }
    }
}

} // verus!
