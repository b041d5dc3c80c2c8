//! The order traversal engine: the cursor that drives the paginated listing,
//! and the per-order plan — an accept request for an order still awaiting
//! acceptance, then a persistence write — that the caller carries out
//! between page requests.

use vstd::prelude::*;

verus! {

use vstd::string::StringExecFns;
use crate::text::str_eq;
use crate::urls::{accept_url, order_accept_url, orders_listing_url, orders_url};

/// The order state that triggers an auto-accept.
pub open spec fn waiting_acceptance() -> Seq<char> {
    "WAITING_ACCEPTANCE"@
}

/// What the traversal engine reads of one fetched order: its identifier and
/// its state code. The full wire record stays with the caller, which hands
/// it to the persistence sink once the plan says so.
#[derive(Debug, Clone, PartialEq, Eq)]
pub struct OrderInfo {
    /// The order's identifier.
    pub order_id: String,
    /// The order's state code.
    pub order_state: String,
}

/// One action the caller must carry out for an order, in plan order.
#[derive(Debug, Clone, PartialEq, Eq)]
pub enum PullStep {
    /// Issue a PUT to this accept endpoint.
    Accept { url: String },
    /// Write the order's wire record to a file of this name inside the
    /// configured output directory.
    Persist { file_name: String },
}

/// The mathematical form of one step: the same shape over character
/// sequences.
pub enum StepView {
    Accept { url: Seq<char> },
    Persist { file_name: Seq<char> },
}

impl View for PullStep {
    type V = StepView;

    open spec fn view(&self) -> StepView {
        match self {
            PullStep::Accept { url } => StepView::Accept { url: url@ },
            PullStep::Persist { file_name } => StepView::Persist { file_name: file_name@ },
        }
    }
}

/// The views of a sequence of steps.
pub open spec fn steps_view(s: Seq<PullStep>) -> Seq<StepView> {
    s.map_values(|st: PullStep| st@)
}

/// The name an order's file is persisted under: timestamp, order id, and a
/// fixed suffix naming the wire format.
pub open spec fn order_file_name_seq(ts: Seq<char>, order_id: Seq<char>) -> Seq<char> {
    ts + "-"@ + order_id + "-GetOrders_Response.xml"@
}

/// The plan for one fetched order: an accept request exactly when the order
/// is still awaiting acceptance, then the persistence write.
pub open spec fn order_plan(
    base: Seq<char>,
    ts: Seq<char>,
    order_id: Seq<char>,
    order_state: Seq<char>,
) -> Seq<StepView> {
    if order_state == waiting_acceptance() {
        seq![
            StepView::Accept { url: accept_url(base, order_id) },
            StepView::Persist { file_name: order_file_name_seq(ts, order_id) },
        ]
    } else {
        seq![StepView::Persist { file_name: order_file_name_seq(ts, order_id) }]
    }
}

/// Builds the file name an order is persisted under, from the given
/// timestamp rendering and the order's identifier.
pub fn make_order_file_name(ts: &str, order_id: &str) -> (r: String)
    ensures
        r@ == order_file_name_seq(ts@, order_id@),
{
    let mut r = ts.to_owned();
    r.append("-");
    r.append(order_id);
    r.append("-GetOrders_Response.xml");
    r
}

/// The shape of a timestamp rendering: after a first character that may
/// also be a sign, ASCII digits and dashes only.
pub open spec fn timestamp_chars(s: Seq<char>) -> bool {
    &&& s.len() > 0 ==> (48 <= s[0] as u32 <= 57 || s[0] == '-' || s[0] == '+')
    &&& forall|i: int| 1 <= i < s.len() ==> (48 <= s[i] as u32 <= 57 || s[i] == '-')
}

/// Relies on chrono's local clock rendered with `%Y%m%d-%H%M%S`: the year
/// comes first, zero-padded to at least four digits and carrying a leading
/// `+` or `-` sign outside years 0..=9999; the five other fields are
/// two digits each, joined by a literal dash. So the rendering has at
/// least 15 characters, opens with a digit or a sign, and holds digits and
/// dashes only after that, whatever the clock reads; its exact length the
/// clock alone decides.
#[verifier::external_body]
fn now_timestamp() -> (r: String)
    ensures
        r@.len() >= 15,
        timestamp_chars(r@),
{
    chrono::Local::now().format("%Y%m%d-%H%M%S").to_string()
}

/// Plans the steps for one fetched order against the given timestamp
/// rendering: an accept request exactly when the order's state equals
/// `WAITING_ACCEPTANCE`, then the persistence write.
pub fn plan_order_at(base: &str, ts: &str, order: &OrderInfo) -> (r: Vec<PullStep>)
    ensures
        steps_view(r@) == order_plan(base@, ts@, order.order_id@, order.order_state@),
{
    let mut steps: Vec<PullStep> = Vec::new();
    if str_eq(order.order_state.as_str(), "WAITING_ACCEPTANCE") {
        steps.push(PullStep::Accept { url: order_accept_url(base, order.order_id.as_str()) });
    }
    steps.push(PullStep::Persist { file_name: make_order_file_name(ts, order.order_id.as_str()) });
    proof {
        assert(steps_view(steps@) =~= order_plan(
            base@,
            ts@,
            order.order_id@,
            order.order_state@,
        ));
    }
    steps
}

/// Plans the steps for one fetched order, timestamping the persistence file
/// name from the local clock.
pub fn plan_order(base: &str, order: &OrderInfo) -> (r: Vec<PullStep>)
    ensures
        exists|ts: Seq<char>|
            ts.len() >= 15 && timestamp_chars(ts) && steps_view(r@) == order_plan(
                base@,
                ts,
                order.order_id@,
                order.order_state@,
            ),
{
    let ts = now_timestamp();
    let r = plan_order_at(base, ts.as_str(), order);
    proof {
        assert(ts@.len() >= 15 && timestamp_chars(ts@) && steps_view(r@) == order_plan(
            base@,
            ts@,
            order.order_id@,
            order.order_state@,
        ));
    }
    r
}

/// The cursor of one pull: the target the next page request goes to, or
/// nothing once a page arrived without a continuation link.
#[derive(Debug, Clone, PartialEq, Eq)]
pub struct PullCursor {
    /// The next request target, if the traversal is still running.
    pub target: Option<String>,
}

impl PullCursor {
    /// Starts a traversal at the orders listing endpoint.
    pub fn start(base: &str) -> (c: Self)
        ensures
            c.target matches Some(u) && u@ == orders_listing_url(base@),
    {
        PullCursor { target: Some(orders_url(base)) }
    }

    /// True while a request target remains.
    pub fn is_active(&self) -> (b: bool)
        ensures
            b == (self.target is Some),
    {
        self.target.is_some()
    }

    /// Advances past a received page: the page's continuation link, if any,
    /// becomes the next target; its absence ends the traversal.
    pub fn advance(&mut self, link: Option<String>)
        requires
            old(self).target is Some,
        ensures
            final(self).target == link,
    {
        self.target = link;
    }
}

/// How many page requests a traversal issues from the given target:
/// `links[i]` is the continuation link carried by the page that the `i`-th
/// remaining request returns, and each request's link becomes the next
/// target, exactly as `PullCursor::advance` records it.
pub open spec fn gets_issued(target: Option<Seq<char>>, links: Seq<Option<Seq<char>>>) -> nat
    decreases links.len(),
{
    match target {
        Option::None => 0,
        Option::Some(_) => if links.len() == 0 {
            1
        } else {
            1 + gets_issued(links[0], links.skip(1))
        },
    }
}

/// For a run of N pages where each page but the last carries a continuation
/// link, the traversal issues exactly N page requests and stops after the
/// page lacking a link.
pub proof fn lemma_pagination_request_count(
    target: Option<Seq<char>>,
    links: Seq<Option<Seq<char>>>,
)
    requires
        target is Some,
        links.len() >= 1,
        forall|i: int| 0 <= i < links.len() - 1 ==> links[i] is Some,
        links[links.len() - 1] is None,
    ensures
        gets_issued(target, links) == links.len(),
    decreases links.len(),
{
    if links.len() == 1 {
        assert(links[0] is None);
        assert(gets_issued(links[0], links.skip(1)) == 0);
        assert(gets_issued(target, links) == 1 + gets_issued(links[0], links.skip(1)));
    } else {
        let tail = links.skip(1);
        assert(links[0] is Some);
        assert forall|i: int| 0 <= i < tail.len() - 1 implies tail[i] is Some by {
            assert(tail[i] == links[i + 1]);
        }
        assert(tail[tail.len() - 1] == links[links.len() - 1]);
        lemma_pagination_request_count(links[0], tail);
    }
}

/// Persisted file names collide only for equal order ids: with timestamp
/// renderings of one length, two orders of one run write to one file only
/// if they are the same order. Together with the plan shape — exactly one
/// persistence write per order — every order of a run gets a file of its
/// own.
pub proof fn lemma_file_names_injective(
    ts1: Seq<char>,
    id1: Seq<char>,
    ts2: Seq<char>,
    id2: Seq<char>,
)
    requires
        ts1.len() == ts2.len(),
        order_file_name_seq(ts1, id1) == order_file_name_seq(ts2, id2),
    ensures
        id1 == id2,
{
    let sep = "-"@;
    let sfx = "-GetOrders_Response.xml"@;
    let n1 = order_file_name_seq(ts1, id1);
    let n2 = order_file_name_seq(ts2, id2);
    assert(n1.len() == ts1.len() + sep.len() + id1.len() + sfx.len());
    assert(n2.len() == ts2.len() + sep.len() + id2.len() + sfx.len());
    assert(id1.len() == id2.len());
    assert forall|k: int| 0 <= k < id1.len() implies id1[k] == id2[k] by {
        let off = ts1.len() + sep.len();
        assert(n1[off + k] == id1[k]);
        assert(n2[off + k] == id2[k]);
    }
    assert(id1 =~= id2);
}

/// Run-level form of persistence uniqueness: over a run whose timestamp
/// renderings all share one length and whose orders carry pairwise
/// distinct ids, every order writes to a file of its own — no two file
/// names of the run collide. `ts[k]` is the timestamp rendering of the
/// `k`-th order's write, `ids[k]` that order's id.
pub proof fn lemma_run_file_names_distinct(ts: Seq<Seq<char>>, ids: Seq<Seq<char>>)
    requires
        ts.len() == ids.len(),
        forall|i: int, j: int|
            0 <= i < ts.len() && 0 <= j < ts.len() ==> #[trigger] ts[i].len() == #[trigger] ts[j].len(),
        forall|i: int, j: int|
            0 <= i < ids.len() && 0 <= j < ids.len() && i != j ==> #[trigger] ids[i]
                != #[trigger] ids[j],
    ensures
        forall|i: int, j: int|
            0 <= i < ids.len() && 0 <= j < ids.len() && i != j ==> #[trigger] order_file_name_seq(
                ts[i],
                ids[i],
            ) != #[trigger] order_file_name_seq(ts[j], ids[j]),
{
    assert forall|i: int, j: int|
        0 <= i < ids.len() && 0 <= j < ids.len() && i != j implies #[trigger] order_file_name_seq(
        ts[i],
        ids[i],
    ) != #[trigger] order_file_name_seq(ts[j], ids[j]) by {
        if order_file_name_seq(ts[i], ids[i]) == order_file_name_seq(ts[j], ids[j]) {
            lemma_file_names_injective(ts[i], ids[i], ts[j], ids[j]);
        }
    }
}

/// The plan of any order ends with its one persistence write, holds nothing
/// besides accept requests before it, and has an accept request exactly
/// when the order is awaiting acceptance.
pub proof fn lemma_auto_accept_policy(
    base: Seq<char>,
    ts: Seq<char>,
    order_id: Seq<char>,
    order_state: Seq<char>,
)
    ensures
        ({
            let p = order_plan(base, ts, order_id, order_state);
            &&& p.len() >= 1
            &&& p.last() == (StepView::Persist { file_name: order_file_name_seq(ts, order_id) })
            &&& forall|i: int|
                0 <= i < p.len() - 1 ==> p[i] == (StepView::Accept {
                    url: accept_url(base, order_id),
                })
            &&& order_state == waiting_acceptance() ==> p.len() == 2
            &&& order_state != waiting_acceptance() ==> p.len() == 1
        }),
{
}

} // verus!
