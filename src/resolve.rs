//! Choice of the address to bind or send to, from what a lookup gave.
//!
//! The lookup itself (the platform's resolver) is done by the caller; it
//! hands in the candidates in the order the resolver returned them, or
//! `None` when the lookup failed.
use vstd::prelude::*;
use vstd::string::StringExecFns;

verus! {

/// One address that a lookup returned: its literal text and its family.
#[derive(Clone, Debug, PartialEq, Eq)]
pub struct Candidate {
    pub ip: String,
    pub is_ipv6: bool,
}

impl View for Candidate {
    type V = (Seq<char>, bool);

    open spec fn view(&self) -> (Seq<char>, bool) {
        (self.ip@, self.is_ipv6)
    }
}

/// The address chosen for `host`: the first candidate; where its family is
/// not the preferred one, the second candidate if there is one; and the host
/// text itself where the lookup failed or gave nothing.
pub open spec fn chosen_address(
    host: Seq<char>,
    lookup: Option<Seq<(Seq<char>, bool)>>,
    prefer_ipv6: bool,
) -> Seq<char> {
    match lookup {
        None => host,
        Some(c) => if c.len() == 0 {
            host
        } else if c[0].1 != prefer_ipv6 && c.len() > 1 {
            c[1].0
        } else {
            c[0].0
        },
    }
}

/// The views of a lookup result.
pub open spec fn lookup_view(lookup: Option<Vec<Candidate>>) -> Option<Seq<(Seq<char>, bool)>> {
    match lookup {
        None => None,
        Some(v) => Some(v@.map_values(|c: Candidate| c@)),
    }
}

/// The address to use for `host`, given what looking it up gave.
pub fn choose_address(host: &str, lookup: &Option<Vec<Candidate>>, prefer_ipv6: bool) -> (r:
    String)
    ensures
        r@ == chosen_address(host@, lookup_view(*lookup), prefer_ipv6),
{
    match lookup {
        None => String::from_str(host),
        Some(c) => {
            if c.len() == 0 {
                String::from_str(host)
            } else if c[0].is_ipv6 != prefer_ipv6 && c.len() > 1 {
                c[1].ip.clone()
            } else {
                c[0].ip.clone()
            }
        },
    }
}

/// A failed lookup leaves the host text unchanged, whatever the preference.
pub proof fn lemma_failed_lookup_keeps_host(host: Seq<char>, prefer_ipv6: bool)
    ensures
        chosen_address(host, None, prefer_ipv6) == host,
{
}

/// A lookup that gives the host back as its only candidate (a literal
/// address) leaves it unchanged, whatever the preference.
pub proof fn lemma_literal_address_kept(host: Seq<char>, is_ipv6: bool, prefer_ipv6: bool)
    ensures
        chosen_address(host, Some(seq![(host, is_ipv6)]), prefer_ipv6) == host,
{
}

} // verus!
