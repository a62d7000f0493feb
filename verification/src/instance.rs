//! Instance identifiers and the resource group named after them.

use vstd::prelude::*;

verus! {

/// Number of characters in an instance identifier.
pub const INSTANCE_ID_LENGTH: usize = 5;

/// The alphabet identifiers are drawn from: lowercase letters and digits
/// without the easily confused `i`, `o` and `0`.
pub open spec fn instance_charset() -> Seq<char> {
    "abcdefghjklmnpqrstuvwxyz123456789"@
}

pub open spec fn is_instance_char(c: char) -> bool {
    ||| ('a' <= c && c <= 'z' && c != 'i' && c != 'o')
    ||| ('1' <= c && c <= '9')
}

pub open spec fn valid_instance_id(id: Seq<char>) -> bool {
    &&& id.len() == INSTANCE_ID_LENGTH
    &&& forall|i: int| 0 <= i < id.len() ==> is_instance_char(#[trigger] id[i])
}

/// Prefix that turns an instance identifier into a resource group name.
pub open spec fn group_prefix() -> Seq<char> {
    "kubelift-"@
}

pub open spec fn group_name_of(id: Seq<char>) -> Seq<char> {
    group_prefix() + id
}

pub proof fn lemma_charset_members(c: char)
    requires
        instance_charset().contains(c),
    ensures
        is_instance_char(c),
{
    reveal_strlit("abcdefghjklmnpqrstuvwxyz123456789");
    let j = choose|j: int| 0 <= j < instance_charset().len() && instance_charset()[j] == c;
    assert(instance_charset().len() == 33);
}

/// Draws `length` characters from `charset` with `random_string::generate`.
///
/// Trusted: the result has exactly `length` characters and each of them occurs
/// in `charset`. Which ones is left open, since they are chosen at random. The
/// outside function aborts on an empty charset, which `requires` rules out.
#[verifier::external_body]
fn random_token(length: usize, charset: &str) -> (token: String)
    requires
        charset@.len() > 0,
    ensures
        token@.len() == length,
        forall|i: int| 0 <= i < token@.len() ==> charset@.contains(#[trigger] token@[i]),
{
    random_string::generate(length, charset)
}

/// A fresh identifier for one provisioning run. Identifiers are not checked
/// for uniqueness: a collision with an earlier run is accepted.
pub fn generate_new_instance_id() -> (id: String)
    ensures
        valid_instance_id(id@),
{
    let charset = "abcdefghjklmnpqrstuvwxyz123456789";
    proof {
        reveal_strlit("abcdefghjklmnpqrstuvwxyz123456789");
    }
    let id = random_token(INSTANCE_ID_LENGTH, charset);
    assert forall|i: int| 0 <= i < id@.len() implies is_instance_char(#[trigger] id@[i]) by {
        lemma_charset_members(id@[i]);
    }
    id
}

/// Whether `c` belongs to the identifier alphabet.
pub fn instance_char(c: char) -> (member: bool)
    ensures
        member == is_instance_char(c),
{
    (c >= 'a' && c <= 'z' && c != 'i' && c != 'o') || (c >= '1' && c <= '9')
}

/// Whether `id` has the shape of an instance identifier.
pub fn is_valid_instance_id(id: &str) -> (valid: bool)
    ensures
        valid == valid_instance_id(id@),
{
    if id.unicode_len() != INSTANCE_ID_LENGTH {
        return false;
    }
    let mut i: usize = 0;
    while i < INSTANCE_ID_LENGTH
        invariant
            i <= INSTANCE_ID_LENGTH,
            id@.len() == INSTANCE_ID_LENGTH,
            forall|j: int| 0 <= j < i ==> is_instance_char(#[trigger] id@[j]),
        decreases INSTANCE_ID_LENGTH - i,
    {
        if !instance_char(id.get_char(i)) {
            return false;
        }
        i = i + 1;
    }
    true
}

/// The name of the resource group that holds the appliance `id`.
pub fn resource_group_name(id: &str) -> (name: String)
    ensures
        name@ == group_name_of(id@),
{
    let mut name = String::from_str("kubelift-");
    name.append(id);
    name
}

/// What identifies one provisioning run: the identifier drawn for it and the
/// resource group named after it.
#[derive(Debug, PartialEq, Eq)]
pub struct InstanceRecord {
    pub instance_id: String,
    pub resource_group_name: String,
}

/// Mathematical value of an [`InstanceRecord`].
pub struct InstanceRecordView {
    pub instance_id: Seq<char>,
    pub resource_group_name: Seq<char>,
}

impl InstanceRecordView {
    /// The identifier is well shaped and the group is the one named after it.
    pub open spec fn well_formed(self) -> bool {
        &&& valid_instance_id(self.instance_id)
        &&& self.resource_group_name == group_name_of(self.instance_id)
    }
}

impl View for InstanceRecord {
    type V = InstanceRecordView;

    open spec fn view(&self) -> InstanceRecordView {
        InstanceRecordView {
            instance_id: self.instance_id@,
            resource_group_name: self.resource_group_name@,
        }
    }
}

impl InstanceRecord {
    /// The record for a freshly drawn identifier.
    pub fn generate() -> (record: InstanceRecord)
        ensures
            record@.well_formed(),
    {
        let instance_id = generate_new_instance_id();
        let resource_group_name = resource_group_name(instance_id.as_str());
        InstanceRecord { instance_id, resource_group_name }
    }

    /// The record for a given identifier, if it is well shaped.
    pub fn from_id(id: &str) -> (record: Option<InstanceRecord>)
        ensures
            record is Some <==> valid_instance_id(id@),
            record matches Some(r) ==> r@.well_formed() && r@.instance_id == id@,
    {
        if is_valid_instance_id(id) {
            Some(
                InstanceRecord {
                    instance_id: String::from_str(id),
                    resource_group_name: resource_group_name(id),
                },
            )
        } else {
            None
        }
    }

    pub fn duplicate(&self) -> (copy: InstanceRecord)
        ensures
            copy@ == self@,
    {
        InstanceRecord {
            instance_id: self.instance_id.clone(),
            resource_group_name: self.resource_group_name.clone(),
        }
    }
}

} // verus!
