//! The client's configuration: remote base URL, API key, and the settings
//! of the order pull. Loading it from disk is the surrounding application's
//! business; the library only consumes the loaded values.

use vstd::prelude::*;

verus! {

use vstd::string::StringExecFns;
use crate::text::push_char;

/// The configuration of one invocation.
#[derive(Debug, Clone, PartialEq, Eq)]
pub struct Config {
    /// Base URL of the remote service.
    pub base_url: String,
    /// Raw API key sent in the authorization header.
    pub api_key: String,
    /// Settings of the order pull.
    pub pull_order_settings: PullOrderSettings,
}

/// What an order pull needs: which state codes to ask for and where to
/// persist the fetched orders.
#[derive(Debug, Clone, PartialEq, Eq)]
pub struct PullOrderSettings {
    /// The order state codes the listing is filtered by, in configuration
    /// order.
    pub order_state_codes: Vec<String>,
    /// The directory the fetched orders are written to.
    pub order_path: String,
}

/// The comma-joined form of a sequence of strings, order preserved and
/// without a trailing separator.
pub open spec fn csv_join(elems: Seq<Seq<char>>) -> Seq<char>
    decreases elems.len(),
{
    if elems.len() == 0 {
        Seq::<char>::empty()
    } else if elems.len() == 1 {
        elems[0]
    } else {
        elems[0] + seq![','] + csv_join(elems.skip(1))
    }
}

/// Joining distributes over appending one more element at the end.
proof fn lemma_csv_join_push(elems: Seq<Seq<char>>, x: Seq<char>)
    requires
        elems.len() >= 1,
    ensures
        csv_join(elems.push(x)) == csv_join(elems) + seq![','] + x,
    decreases elems.len(),
{
    let t = elems.push(x);
    assert(t[0] == elems[0]);
    if elems.len() == 1 {
        assert(t.skip(1) =~= seq![x]);
        assert(csv_join(t.skip(1)) == x);
        assert(csv_join(t) =~= csv_join(elems) + seq![','] + x);
    } else {
        assert(t.skip(1) =~= elems.skip(1).push(x));
        lemma_csv_join_push(elems.skip(1), x);
        assert(csv_join(t) =~= csv_join(elems) + seq![','] + x);
    }
}

impl PullOrderSettings {
    /// The configured state codes as one comma-joined query value, in
    /// configuration order.
    pub fn order_state_codes(&self) -> (r: String)
        ensures
            r@ == csv_join(self.order_state_codes.deep_view()),
    {
        let n = self.order_state_codes.len();
        let mut r = String::new();
        let mut i: usize = 0;
        while i < n
            invariant
                i <= n,
                n == self.order_state_codes@.len(),
                r@ == csv_join(self.order_state_codes.deep_view().subrange(0, i as int)),
            decreases n - i,
        {
            if i > 0 {
                push_char(&mut r, ',');
            }
            r.append(self.order_state_codes[i].as_str());
            proof {
                let dv = self.order_state_codes.deep_view();
                assert(dv[i as int] == self.order_state_codes@[i as int]@);
                assert(dv.subrange(0, i as int).push(dv[i as int]) =~= dv.subrange(
                    0,
                    i as int + 1,
                ));
                if i > 0 {
                    lemma_csv_join_push(dv.subrange(0, i as int), dv[i as int]);
                } else {
                    assert(dv.subrange(0, 1).len() == 1);
                }
                assert(r@ =~= csv_join(dv.subrange(0, i as int + 1)));
            }
            i += 1;
        }
        proof {
            let dv = self.order_state_codes.deep_view();
            assert(dv.subrange(0, n as int) =~= dv);
        }
        r
    }
}

} // verus!
