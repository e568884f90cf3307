//! The wire keeps no order among the headers of a message: what a message
//! stands for does not depend on it.

use crate::forwarder::headers::{
    are_headers, header_of_texts, headers_of_texts, is_header_name, is_header_value, Header,
};
use crate::forwarder::http_msg::{
    has_name, headers_on_wire, http_message_from_wire, http_on_wire, is_last_value,
    is_wire_form, last_values_on_wire, HttpView,
};
use crate::forwarder::wire::{
    distinct_names, same_http_message, same_pairs, WireHttp, WireHttpMessage,
};
use vstd::multiset::Multiset;
use vstd::prelude::*;

verus! {

/// Two lists that hold the same items hold the same items after each item
/// went through one function.
pub proof fn lemma_map_multiset<A, B>(a: Seq<A>, b: Seq<A>, f: spec_fn(A) -> B)
    requires
        a.to_multiset() == b.to_multiset(),
    ensures
        a.len() == b.len(),
        a.map_values(f).to_multiset() == b.map_values(f).to_multiset(),
    decreases a.len(),
{
    a.to_multiset_ensures();
    b.to_multiset_ensures();
    if a.len() == 0 {
        assert(a.map_values(f) =~= b.map_values(f));
    } else {
        let last = a.len() - 1;
        let x = a[last];
        assert(a.contains(x));
        assert(b.to_multiset().count(x) > 0);
        assert(b.contains(x));
        let j = choose|j: int| 0 <= j < b.len() && b[j] == x;
        let a1 = a.remove(last);
        let b1 = b.remove(j);
        assert(a1.to_multiset() =~= a.to_multiset().remove(x));
        assert(b1.to_multiset() =~= b.to_multiset().remove(x));
        lemma_map_multiset(a1, b1, f);
        let fa = a.map_values(f);
        let fb = b.map_values(f);
        fa.to_multiset_ensures();
        fb.to_multiset_ensures();
        assert(fa.remove(last) =~= a1.map_values(f));
        assert(fb.remove(j) =~= b1.map_values(f));
        assert(fa[last] == f(x) && fb[j] == f(x));
        assert(fa.contains(f(x)) && fb.contains(f(x)));
        assert(fa.remove(last).to_multiset() =~= fa.to_multiset().remove(f(x)));
        assert(fb.remove(j).to_multiset() =~= fb.to_multiset().remove(f(x)));
        assert forall|y: B| fa.to_multiset().count(y) == fb.to_multiset().count(y) by {
            assert(fa.to_multiset().remove(f(x)).count(y) == fb.to_multiset().remove(f(x)).count(
                y,
            ));
        }
        assert(fa.to_multiset() =~= fb.to_multiset());
    }
}

/// What one of two lists with the same items holds, the other holds.
pub proof fn lemma_same_items<A>(a: Seq<A>, b: Seq<A>, x: A)
    requires
        a.to_multiset() == b.to_multiset(),
        a.contains(x),
    ensures
        b.contains(x),
{
    a.to_multiset_ensures();
    b.to_multiset_ensures();
    assert(a.to_multiset().count(x) > 0);
    assert(b.to_multiset().count(x) > 0);
}

/// Pairs in another order are headers if they were, and stand for the same
/// headers.
pub proof fn lemma_same_pairs_same_headers(
    a: Seq<(Seq<char>, Seq<char>)>,
    b: Seq<(Seq<char>, Seq<char>)>,
)
    requires
        same_pairs(a, b),
    ensures
        a.len() == b.len(),
        are_headers(a) == are_headers(b),
        headers_of_texts(a) == headers_of_texts(b),
{
    lemma_map_multiset(a, b, |p: (Seq<char>, Seq<char>)| header_of_texts(p));
    a.to_multiset_ensures();
    b.to_multiset_ensures();
    if are_headers(a) {
        assert forall|i: int| 0 <= i < b.len() implies is_header_name((#[trigger] b[i]).0)
            && is_header_value(b[i].1) by {
            assert(b.contains(b[i]));
            lemma_same_items(b, a, b[i]);
            let k = choose|k: int| 0 <= k < a.len() && a[k] == b[i];
            assert(is_header_name(a[k].0));
        }
    }
    if are_headers(b) {
        assert forall|i: int| 0 <= i < a.len() implies is_header_name((#[trigger] a[i]).0)
            && is_header_value(a[i].1) by {
            assert(a.contains(a[i]));
            lemma_same_items(a, b, a[i]);
            let k = choose|k: int| 0 <= k < b.len() && b[k] == a[i];
            assert(is_header_name(b[k].0));
        }
    }
}

/// A request or response stands for the same message whatever the order
/// of its headers.
pub proof fn lemma_same_http_message(a: WireHttpMessage, b: WireHttpMessage, room: bool)
    requires
        same_http_message(a, b),
    ensures
        a.headers().len() == b.headers().len(),
        http_message_from_wire(a, room) == http_message_from_wire(b, room),
{
    lemma_same_pairs_same_headers(a.headers(), b.headers());
}

/// Pairs with distinct names have distinct names in any order.
pub proof fn lemma_same_pairs_distinct(
    a: Seq<(Seq<char>, Seq<char>)>,
    b: Seq<(Seq<char>, Seq<char>)>,
)
    requires
        same_pairs(a, b),
        distinct_names(a),
    ensures
        distinct_names(b),
{
    a.to_multiset_ensures();
    b.to_multiset_ensures();
    assert(a.no_duplicates()) by {
        assert forall|i: int, j: int| 0 <= i < a.len() && 0 <= j < a.len() && i != j implies a[i]
            != a[j] by {
            if i < j {
                assert(a[i].0 != a[j].0);
            } else {
                assert(a[j].0 != a[i].0);
            }
        }
    }
    a.lemma_multiset_has_no_duplicates();
    b.lemma_multiset_has_no_duplicates_conv();
    assert forall|i: int, j: int| 0 <= i < j < b.len() implies (#[trigger] b[i]).0 != (
    #[trigger] b[j]).0 by {
        assert(b[i] != b[j]);
        assert(b.contains(b[i]) && b.contains(b[j]));
        lemma_same_items(b, a, b[i]);
        lemma_same_items(b, a, b[j]);
        let k = choose|k: int| 0 <= k < a.len() && a[k] == b[i];
        let m = choose|m: int| 0 <= m < a.len() && a[m] == b[j];
        if k < m {
            assert(a[k].0 != a[m].0);
        } else {
            assert(k != m);
            assert(a[m].0 != a[k].0);
        }
    }
}

/// Headers that went on the wire as some pairs went on the wire as the same
/// pairs in any order.
pub proof fn lemma_same_pairs_on_wire(
    headers: Multiset<Header>,
    a: Seq<(Seq<char>, Seq<char>)>,
    b: Seq<(Seq<char>, Seq<char>)>,
)
    requires
        headers_on_wire(headers, a),
        same_pairs(a, b),
    ensures
        headers_on_wire(headers, b),
{
    lemma_same_pairs_distinct(a, b);
    a.to_multiset_ensures();
    b.to_multiset_ensures();
    assert forall|k: int| 0 <= k < b.len() implies is_wire_form(#[trigger] b[k], headers) by {
        assert(b.contains(b[k]));
        lemma_same_items(b, a, b[k]);
        let i = choose|i: int| 0 <= i < a.len() && a[i] == b[k];
        assert(is_wire_form(a[i], headers));
    }
    assert forall|header: Header| #[trigger] headers.contains(header) implies has_name(
        b,
        header.0,
    ) by {
        assert(has_name(a, header.0));
        let i = choose|i: int| 0 <= i < a.len() && (#[trigger] a[i]).0 == header.0;
        assert(a.contains(a[i]));
        lemma_same_items(a, b, a[i]);
        let k = choose|k: int| 0 <= k < b.len() && b[k] == a[i];
        assert(b[k].0 == header.0);
    }
}

/// Pairs that stand for the last value of each name do so in any order.
pub proof fn lemma_same_pairs_last_values(
    order: Seq<Header>,
    a: Seq<(Seq<char>, Seq<char>)>,
    b: Seq<(Seq<char>, Seq<char>)>,
)
    requires
        last_values_on_wire(order, a),
        same_pairs(a, b),
    ensures
        last_values_on_wire(order, b),
{
    assert forall|k: int| 0 <= k < b.len() implies is_last_value(order, #[trigger] b[k]) by {
        assert(b.contains(b[k]));
        lemma_same_items(b, a, b[k]);
        let i = choose|i: int| 0 <= i < a.len() && a[i] == b[k];
        assert(is_last_value(order, a[i]));
    }
}

/// An HTTP message that went on the wire as one wire message went on the
/// wire as any that differs only in the order of its headers.
pub proof fn lemma_same_http_on_wire(http: HttpView, a: WireHttp, b: WireHttp)
    requires
        http_on_wire(http, a),
        a.request_id == b.request_id,
        a.message is Some,
        b.message is Some,
        same_http_message(a.message->0, b.message->0),
    ensures
        http_on_wire(http, b),
{
    match a.message->0 {
        WireHttpMessage::Request(on_wire) => {
            lemma_same_pairs_on_wire(
                http.http_msg->Request_0.headers,
                on_wire.headers,
                b.message->0->Request_0.headers,
            );
        },
        WireHttpMessage::Response(on_wire) => {
            lemma_same_pairs_on_wire(
                http.http_msg->Response_0.headers,
                on_wire.headers,
                b.message->0->Response_0.headers,
            );
        },
    }
}

} // verus!
