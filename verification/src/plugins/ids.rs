//! The ids that the manager gives to the plugins it loads.

use vstd::prelude::*;
use vstd::string::*;

use crate::text::{decimal_string, decimal_text, lemma_decimal_text_injective};

verus! {

/// The id of the plugin whose load was the `index`-th to be started, counted
/// from zero: `plugin_` followed by the decimal numeral of `index`.
pub open spec fn plugin_id_text(index: nat) -> Seq<char> {
    "plugin_"@ + decimal_text(index)
}

/// Whether `id` is one of the first `bound` ids.
pub open spec fn generated_before(id: Seq<char>, bound: nat) -> bool {
    exists|k: nat| k < bound && id == #[trigger] plugin_id_text(k)
}

/// Loads that were started at different times get different ids.
pub proof fn lemma_plugin_ids_distinct(a: nat, b: nat)
    requires
        a != b,
    ensures
        plugin_id_text(a) != plugin_id_text(b),
{
    let prefix = "plugin_"@;
    if plugin_id_text(a) == plugin_id_text(b) {
        assert((prefix + decimal_text(a)).subrange(prefix.len() as int, (prefix + decimal_text(a)).len() as int)
            =~= decimal_text(a));
        assert((prefix + decimal_text(b)).subrange(prefix.len() as int, (prefix + decimal_text(b)).len() as int)
            =~= decimal_text(b));
        lemma_decimal_text_injective(a, b);
    }
}

/// An id that is yet to be given out is none of those given out before.
pub proof fn lemma_next_id_is_fresh(id: Seq<char>, bound: nat)
    requires
        generated_before(id, bound),
    ensures
        id != plugin_id_text(bound),
{
    let k = choose|k: nat| k < bound && id == #[trigger] plugin_id_text(k);
    lemma_plugin_ids_distinct(k, bound);
}

/// Writes the id of the `index`-th load.
pub fn plugin_id(index: u64) -> (id: String)
    ensures
        id@ == plugin_id_text(index as nat),
{
    let mut id = String::from_str("plugin_");
    let digits = decimal_string(index);
    id.append(digits.as_str());
    id
}

} // verus!
