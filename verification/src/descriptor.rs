//! What the library reads out of the JSON descriptors a cloud hands back.

use vstd::prelude::*;

verus! {

/// The text stored under `key` in the top-level object of the JSON document
/// `document`: `None` where the document is no JSON, no object, has no such
/// member, or the member is no string.
pub uninterp spec fn json_string_member(document: Seq<char>, key: Seq<char>) -> Option<Seq<char>>;

/// View of an optional text.
pub open spec fn optional_text(text: Option<String>) -> Option<Seq<char>> {
    match text {
        Some(t) => Some(t@),
        None => None,
    }
}

/// Parses `document` with `serde_json::from_str` into a `serde_json::Value`,
/// looks `key` up with `Value::get` and reads the member with `Value::as_str`.
///
/// Trusted: the result is [`json_string_member`] of the two arguments, that
/// is, it depends on them alone.
#[verifier::external_body]
fn string_member(document: &str, key: &str) -> (found: Option<String>)
    ensures
        optional_text(found) == json_string_member(document@, key@),
{
    let value: serde_json::Value = serde_json::from_str(document).ok()?;
    value.get(key)?.as_str().map(|text| text.to_string())
}

/// The two addresses of the appliance: the one inside its virtual network,
/// which its own configuration mentions, and the one reachable from outside.
#[derive(Debug, PartialEq, Eq)]
pub struct Addresses {
    pub private_ip: String,
    pub public_ip: String,
}

/// Mathematical value of [`Addresses`].
pub struct AddressesView {
    pub private_ip: Seq<char>,
    pub public_ip: Seq<char>,
}

impl View for Addresses {
    type V = AddressesView;

    open spec fn view(&self) -> AddressesView {
        AddressesView { private_ip: self.private_ip@, public_ip: self.public_ip@ }
    }
}

impl Clone for Addresses {
    fn clone(&self) -> (copy: Self)
        ensures
            copy@ == self@,
    {
        Addresses { private_ip: self.private_ip.clone(), public_ip: self.public_ip.clone() }
    }
}

/// View of optional addresses.
pub open spec fn optional_addresses(found: Option<Addresses>) -> Option<AddressesView> {
    match found {
        Some(a) => Some(a@),
        None => None,
    }
}

/// Both addresses are needed: one alone is as good as none.
pub open spec fn pair_model(
    private_ip: Option<Seq<char>>,
    public_ip: Option<Seq<char>>,
) -> Option<AddressesView> {
    match (private_ip, public_ip) {
        (Some(p), Some(q)) => Some(AddressesView { private_ip: p, public_ip: q }),
        _ => None,
    }
}

/// The addresses a virtual machine descriptor gives.
pub open spec fn addresses_of(vm_descriptor: Seq<char>) -> Option<AddressesView> {
    pair_model(
        json_string_member(vm_descriptor, "privateIpAddress"@),
        json_string_member(vm_descriptor, "publicIpAddress"@),
    )
}

/// The resource group a persisted resource group descriptor names.
pub open spec fn group_of(record: Seq<char>) -> Option<Seq<char>> {
    json_string_member(record, "name"@)
}

/// Combines what was found under the two address members.
pub fn pair_addresses(private_ip: Option<String>, public_ip: Option<String>) -> (found: Option<
    Addresses,
>)
    ensures
        optional_addresses(found) == pair_model(
            optional_text(private_ip),
            optional_text(public_ip),
        ),
{
    match (private_ip, public_ip) {
        (Some(p), Some(q)) => Some(Addresses { private_ip: p, public_ip: q }),
        _ => None,
    }
}

/// Reads the appliance's addresses out of its virtual machine descriptor.
pub fn discover_addresses(vm_descriptor: &str) -> (found: Option<Addresses>)
    ensures
        optional_addresses(found) == addresses_of(vm_descriptor@),
{
    let private_ip = string_member(vm_descriptor, "privateIpAddress");
    let public_ip = string_member(vm_descriptor, "publicIpAddress");
    pair_addresses(private_ip, public_ip)
}

/// Reads the resource group's name out of its persisted descriptor.
pub fn resource_group_of(record: &str) -> (name: Option<String>)
    ensures
        optional_text(name) == group_of(record@),
{
    string_member(record, "name")
}

} // verus!
