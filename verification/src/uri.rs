use vstd::prelude::*;

use up_rust::LocalUriProvider;

verus! {

/// The parts of a uProtocol URI that name one resource of a uEntity.
#[derive(Clone, Debug, PartialEq, Eq)]
pub struct ResourceUri {
    pub authority_name: String,
    pub ue_id: u32,
    pub ue_version_major: u32,
    pub resource_id: u32,
}

/// The URI of resource `resource_id` of the uEntity with the given authority,
/// entity ID and major version, as up-rust's `StaticUriProvider` builds it.
///
/// Trusted: `up_rust::StaticUriProvider::new` followed by
/// `LocalUriProvider::get_resource_uri`. Their source copies the authority,
/// the entity ID and the major version into the URI and sets its resource ID;
/// the contract claims exactly that.
#[verifier::external_body]
fn static_resource_uri(authority: &str, entity_id: u32, major_version: u8, resource_id: u16) -> (uri: ResourceUri)
    ensures
        uri.authority_name@ == authority@,
        uri.ue_id == entity_id,
        uri.ue_version_major == major_version as u32,
        uri.resource_id == resource_id as u32,
{
    let provider = up_rust::StaticUriProvider::new(authority, entity_id, major_version);
    let uri = provider.get_resource_uri(resource_id);
    ResourceUri {
        authority_name: uri.authority_name,
        ue_id: uri.ue_id,
        ue_version_major: uri.ue_version_major,
        resource_id: uri.resource_id,
    }
}

/// Names the resources of one uEntity: its authority, entity ID and major version.
#[derive(Clone, Debug, PartialEq, Eq)]
pub struct UriProvider {
    authority: String,
    entity_id: u32,
    major_version: u8,
}

impl UriProvider {
    /// A provider for the uEntity with the given authority, entity ID and major version.
    pub fn new(authority: &str, entity_id: u32, major_version: u8) -> (provider: UriProvider)
        ensures
            provider.authority()@ == authority@,
            provider.entity_id() == entity_id,
            provider.major_version() == major_version,
    {
        UriProvider { authority: authority.to_owned(), entity_id, major_version }
    }

    /// The uEntity's authority.
    pub closed spec fn authority(&self) -> String {
        self.authority
    }

    /// The uEntity's entity ID.
    pub closed spec fn entity_id(&self) -> u32 {
        self.entity_id
    }

    /// The uEntity's major version.
    pub closed spec fn major_version(&self) -> u8 {
        self.major_version
    }

    /// The authority used in the URIs of this uEntity's resources.
    pub fn get_authority(&self) -> (authority: String)
        ensures
            authority@ == self.authority()@,
    {
        self.authority.clone()
    }

    /// The URI of one resource of this uEntity: its authority, entity ID and
    /// major version, with the given resource ID.
    pub fn get_resource_uri(&self, resource_id: u16) -> (uri: ResourceUri)
        ensures
            uri.authority_name@ == self.authority()@,
            uri.ue_id == self.entity_id(),
            uri.ue_version_major == self.major_version() as u32,
            uri.resource_id == resource_id as u32,
    {
        static_resource_uri(self.authority.as_str(), self.entity_id, self.major_version, resource_id)
    }
}

} // verus!
