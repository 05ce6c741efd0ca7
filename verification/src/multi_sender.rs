//! Fan-out of a batch to every downstream node, remembering which
//! downstreams already have it.
use vstd::prelude::*;

verus! {

/// The downstream addresses of a node and one connection slot per address;
/// the connections themselves are opened by the caller.
pub struct MultiSender<C> {
    pub streams: Vec<String>,
    pub connects: Vec<Option<C>>,
}

impl<C> MultiSender<C> {
    /// A sender to `streams` with no connection open yet.
    pub fn new(streams: Vec<String>) -> (r: Self)
        ensures
            r.streams@ == streams@,
            r.connects@.len() == streams@.len(),
            forall|i: int| 0 <= i < r.connects@.len() ==> r.connects@[i] is None,
    {
        let mut connects: Vec<Option<C>> = Vec::new();
        let n = streams.len();
        let mut i: usize = 0;
        while i < n
            invariant
                n == streams@.len(),
                i <= n,
                connects@.len() == i,
                forall|j: int| 0 <= j < i ==> connects@[j] is None,
            decreases n - i,
        {
            connects.push(None);
            i = i + 1;
        }
        MultiSender { streams, connects }
    }
}

/// The text of each string in `v`.
pub open spec fn texts(v: Seq<String>) -> Seq<Seq<char>> {
    v.map_values(|s: String| s@)
}

/// Whether the address at `i` has the batch after this round: it had it
/// before, or it was delivered now.
pub open spec fn reached(streams: Seq<Seq<char>>, before: Seq<Seq<char>>, delivered: Seq<bool>, i: int) -> bool {
    before.contains(streams[i]) || delivered[i]
}

/// The addresses among the first `n` that have the batch, in order.
pub open spec fn sent_prefix(streams: Seq<Seq<char>>, before: Seq<Seq<char>>, delivered: Seq<bool>, n: nat) -> Seq<
    Seq<char>,
>
    decreases n,
{
    if n == 0 {
        Seq::empty()
    } else {
        let rest = sent_prefix(streams, before, delivered, (n - 1) as nat);
        if reached(streams, before, delivered, n - 1) {
            rest.push(streams[n - 1])
        } else {
            rest
        }
    }
}

/// Whether `url` is among the addresses that already had the batch.
pub fn already_sent(url: &String, before: &Vec<String>) -> (r: bool)
    ensures
        r == texts(before@).contains(url@),
{
    let n = before.len();
    let mut i: usize = 0;
    while i < n
        invariant
            n == before@.len(),
            i <= n,
            forall|j: int| 0 <= j < i ==> before@[j]@ != url@,
        decreases n - i,
    {
        if before[i] == *url {
            assert(texts(before@)[i as int] == url@);
            return true;
        }
        i = i + 1;
    }
    proof {
        if texts(before@).contains(url@) {
            let j = choose|j: int| 0 <= j < texts(before@).len() && texts(before@)[j] == url@;
            assert(before@[j]@ == url@);
        }
    }
    false
}

/// The result of a round of sends: `Ok` when every address has the batch,
/// otherwise the addresses that have it, in order.  `delivered[i]` tells
/// whether the send to `streams[i]` succeeded in this round; it is not
/// looked at for an address that already had the batch.
pub fn send_result(streams: &Vec<String>, before: &Vec<String>, delivered: &Vec<bool>) -> (r: Result<(), Vec<String>>)
    requires
        delivered@.len() == streams@.len(),
    ensures
        ({
            let sent = sent_prefix(texts(streams@), texts(before@), delivered@, streams@.len());
            &&& r is Ok <==> sent.len() == streams@.len()
            &&& r matches Err(v) ==> texts(v@) == sent
        }),
{
    let mut sent: Vec<String> = Vec::new();
    let n = streams.len();
    let mut i: usize = 0;
    while i < n
        invariant
            n == streams@.len(),
            n == delivered@.len(),
            i <= n,
            texts(sent@) == sent_prefix(texts(streams@), texts(before@), delivered@, i as nat),
        decreases n - i,
    {
        let url = &streams[i];
        if already_sent(url, before) || delivered[i] {
            sent.push(url.clone());
        }
        assert(texts(sent@) =~= sent_prefix(texts(streams@), texts(before@), delivered@, (i + 1) as nat));
        i = i + 1;
    }
    if sent.len() == n {
        Ok(())
    } else {
        Err(sent)
    }
}

/// The number of addresses reached among the first `n` is at most `n`, and
/// equals `n` exactly when every one of them was reached.
pub proof fn lemma_sent_prefix_len(streams: Seq<Seq<char>>, before: Seq<Seq<char>>, delivered: Seq<bool>, n: nat)
    ensures
        sent_prefix(streams, before, delivered, n).len() <= n,
        sent_prefix(streams, before, delivered, n).len() == n <==> forall|i: int|
            0 <= i < n ==> #[trigger] reached(streams, before, delivered, i),
    decreases n,
{
    if n > 0 {
        lemma_sent_prefix_len(streams, before, delivered, (n - 1) as nat);
        if sent_prefix(streams, before, delivered, n).len() == n {
            assert forall|i: int| 0 <= i < n implies #[trigger] reached(streams, before, delivered, i) by {
                if i < n - 1 {
                    assert(sent_prefix(streams, before, delivered, (n - 1) as nat).len() == n - 1);
                }
            }
        }
    }
}

/// Law of a round of sends: it succeeds exactly when every downstream has
/// the batch, because it had it before or received it now.
pub proof fn lemma_round_succeeds_iff_all_reached(streams: Seq<Seq<char>>, before: Seq<Seq<char>>, delivered: Seq<bool>)
    ensures
        sent_prefix(streams, before, delivered, streams.len()).len() == streams.len() <==> forall|i: int|
            0 <= i < streams.len() ==> #[trigger] reached(streams, before, delivered, i),
{
    lemma_sent_prefix_len(streams, before, delivered, streams.len());
}

/// Law of a round of sends, in terms of the addresses alone: it succeeds
/// exactly when every downstream either had the batch before or received it
/// in this round; and the addresses it reports as having the batch are, in
/// order, exactly those downstreams.
pub proof fn lemma_send_round_reports_reached(streams: Seq<Seq<char>>, before: Seq<Seq<char>>, delivered: Seq<bool>)
    ensures
        sent_prefix(streams, before, delivered, streams.len()).len() == streams.len() <==> forall|i: int|
            0 <= i < streams.len() ==> before.contains(#[trigger] streams[i]) || delivered[i],
        forall|x: Seq<char>|
            #[trigger] sent_prefix(streams, before, delivered, streams.len()).contains(x) ==> exists|i: int|
                0 <= i < streams.len() && streams[i] == x && (before.contains(streams[i]) || delivered[i]),
{
    lemma_round_succeeds_iff_all_reached(streams, before, delivered);
    if forall|i: int| 0 <= i < streams.len() ==> before.contains(#[trigger] streams[i]) || delivered[i] {
        assert forall|i: int| 0 <= i < streams.len() implies #[trigger] reached(streams, before, delivered, i) by {
            assert(before.contains(streams[i]) || delivered[i]);
        }
    }
    if forall|i: int| 0 <= i < streams.len() ==> #[trigger] reached(streams, before, delivered, i) {
        assert forall|i: int| 0 <= i < streams.len() implies before.contains(#[trigger] streams[i]) || delivered[i] by {
            assert(reached(streams, before, delivered, i));
        }
    }
    lemma_sent_prefix_members(streams, before, delivered, streams.len());
}

proof fn lemma_sent_prefix_members(streams: Seq<Seq<char>>, before: Seq<Seq<char>>, delivered: Seq<bool>, n: nat)
    ensures
        forall|x: Seq<char>|
            #[trigger] sent_prefix(streams, before, delivered, n).contains(x) ==> exists|i: int|
                0 <= i < n && streams[i] == x && (before.contains(streams[i]) || delivered[i]),
    decreases n,
{
    if n > 0 {
        lemma_sent_prefix_members(streams, before, delivered, (n - 1) as nat);
        let rest = sent_prefix(streams, before, delivered, (n - 1) as nat);
        assert forall|x: Seq<char>| #[trigger] sent_prefix(streams, before, delivered, n).contains(x) implies exists|i: int|
            0 <= i < n && streams[i] == x && (before.contains(streams[i]) || delivered[i]) by {
            if reached(streams, before, delivered, n - 1) {
                let s = rest.push(streams[n - 1]);
                let k = choose|k: int| 0 <= k < s.len() && s[k] == x;
                if k < rest.len() {
                    assert(rest[k] == x);
                    assert(rest.contains(x));
                } else {
                    assert(streams[n - 1] == x);
                }
            } else {
                assert(rest.contains(x));
            }
        }
    }
}

} // verus!
