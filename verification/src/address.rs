//! Peer identity: an IP address in its textual form, and a port.

use vstd::prelude::*;
use vstd::string::StrSliceExecFns;
use vstd::string::StringExecFns;
use crate::text::decimal;
use crate::text::decimal_text;
use crate::text::join_text;
use crate::text::joined;

verus! {

/// The identity of a peer. `ip` holds the IP address as text, in the form in
/// which the transport prints it; two addresses are the same peer exactly when
/// both fields are equal.
#[derive(Debug, PartialEq, Eq, Hash)]
pub struct Address {
    pub ip: String,
    pub port: u16,
}

/// What an [`Address`] stands for in contracts.
pub struct AddressView {
    pub ip: Seq<char>,
    pub port: u16,
}

impl View for Address {
    type V = AddressView;

    open spec fn view(&self) -> AddressView {
        AddressView { ip: self.ip@, port: self.port }
    }
}

impl AddressView {
    /// `ip:port`, the form in which a failed send names its target.
    pub open spec fn host_port(self) -> Seq<char> {
        self.ip + seq![':'] + decimal(self.port as nat)
    }

    /// The form in which a socket address is printed: `ip:port`, with the IP
    /// in square brackets when it holds a colon, as the text of an IPv6
    /// address does.
    pub open spec fn socket_text(self) -> Seq<char> {
        if self.ip.contains(':') {
            seq!['['] + self.ip + seq![']', ':'] + decimal(self.port as nat)
        } else {
            self.host_port()
        }
    }
}

/// The addresses of `list` as `ip:port`, in order, with a comma between each
/// two neighbours.
pub open spec fn address_list(list: Seq<AddressView>) -> Seq<char> {
    joined(list.map_values(|a: AddressView| a.host_port()), seq![','])
}

impl Clone for Address {
    fn clone(&self) -> (r: Self)
        ensures
            r@ == self@,
    {
        Address { ip: self.ip.clone(), port: self.port }
    }
}

/// Whether `text` holds a colon.
fn has_colon(text: &str) -> (r: bool)
    ensures
        r == text@.contains(':'),
{
    let n = text.unicode_len();
    let mut i: usize = 0;
    while i < n
        invariant
            i <= n,
            n == text@.len(),
            forall|k: int| 0 <= k < i ==> text@[k] != ':',
        decreases n - i,
    {
        if text.get_char(i) == ':' {
            return true;
        }
        i = i + 1;
    }
    false
}

impl Address {
    /// The address of the peer at `ip` and `port`.
    pub fn new(ip: &str, port: u16) -> (r: Address)
        ensures
            r@ == (AddressView { ip: ip@, port }),
    {
        Address { ip: String::from_str(ip), port }
    }

    /// Renders the address as `ip:port`.
    pub fn host_port(&self) -> (r: String)
        ensures
            r@ == self@.host_port(),
    {
        proof {
            reveal_strlit(":");
        }
        let mut out = self.ip.clone();
        out.append(":");
        let digits = decimal_text(self.port as u64);
        out.append(digits.as_str());
        assert(out@ =~= self@.host_port());
        out
    }
}

impl Address {
    /// Renders the address as a socket address is printed.
    pub fn socket_text(&self) -> (r: String)
        ensures
            r@ == self@.socket_text(),
    {
        if has_colon(self.ip.as_str()) {
            proof {
                reveal_strlit("[");
                reveal_strlit("]:");
            }
            let mut out = String::from_str("[");
            out.append(self.ip.as_str());
            out.append("]:");
            let digits = decimal_text(self.port as u64);
            out.append(digits.as_str());
            assert(out@ =~= self@.socket_text());
            out
        } else {
            self.host_port()
        }
    }
}

/// Renders `list` as one comma-separated text.
pub fn join_addresses(list: &Vec<Address>) -> (r: String)
    ensures
        r@ == address_list(list@.map_values(|a: Address| a@)),
{
    let mut texts: Vec<String> = Vec::new();
    let mut i: usize = 0;
    while i < list.len()
        invariant
            i <= list.len(),
            texts@.len() == i,
            forall|k: int| 0 <= k < i ==> (#[trigger] texts@[k])@ == list@[k]@.host_port(),
        decreases list.len() - i,
    {
        texts.push(list[i].host_port());
        i = i + 1;
    }
    proof {
        reveal_strlit(",");
        assert(","@ =~= seq![',']);
        assert(texts@.map_values(|p: String| p@) =~= list@.map_values(|a: Address| a@).map_values(
            |a: AddressView| a.host_port(),
        ));
    }
    join_text(&texts, ",")
}

} // verus!
