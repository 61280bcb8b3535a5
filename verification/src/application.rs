//! The application aggregate: a validated identifier together with a unique
//! id and optional metadata. A thin, invariant-free container — it performs
//! no validation of its own and trusts its already-validated inputs.

use vstd::prelude::*;
use crate::rdn::ApplicationRDN;

verus! {

/// The closed two-value kind tag of an application.
#[derive(Debug, Copy, Clone, PartialEq, Ord, PartialOrd, Eq, Hash, Structural)]
pub enum ApplicationsType {
    Client,
    Server,
}

/// `uuid::Uuid`, declared for Verus. The aggregate treats it as an opaque
/// 128-bit token: no internal structure is ever inspected here.
#[verifier::external_type_specification]
#[verifier::external_body]
pub struct ExUuid(uuid::Uuid);

/// `url::Url`, declared for Verus. An already-validated absolute locator,
/// opaque to this library: it is only stored and handed back.
#[verifier::external_type_specification]
#[verifier::external_body]
pub struct ExUrl(url::Url);

/// An application: its validated name, its stable unique identifier, and
/// three optional pieces of metadata. Constructed once as an immutable value;
/// no field is ever mutated afterwards.
#[derive(Debug)]
pub struct Application {
    rdn: ApplicationRDN,
    id: uuid::Uuid,
    homepage: Option<url::Url>,
    description: Option<String>,
    app_type: Option<ApplicationsType>,
}

impl Application {
    /// The owned name, as stored.
    pub closed spec fn spec_rdn(&self) -> ApplicationRDN {
        self.rdn
    }

    /// The unique identifier, as stored.
    pub closed spec fn spec_id(&self) -> uuid::Uuid {
        self.id
    }

    /// The optional homepage, as stored.
    pub closed spec fn spec_homepage(&self) -> Option<url::Url> {
        self.homepage
    }

    /// The optional description, as stored.
    pub closed spec fn spec_description(&self) -> Option<String> {
        self.description
    }

    /// The optional kind tag, as stored.
    pub closed spec fn spec_app_type(&self) -> Option<ApplicationsType> {
        self.app_type
    }

    /// Builds an application from already-valid parts. No validation is
    /// performed and construction cannot fail: every field of the result is
    /// exactly the argument supplied for it.
    pub fn new(
        rdn: ApplicationRDN,
        id: uuid::Uuid,
        homepage: Option<url::Url>,
        description: Option<String>,
        app_type: Option<ApplicationsType>,
    ) -> (r: Application)
        ensures
            r.spec_rdn() == rdn,
            r.spec_id() == id,
            r.spec_homepage() == homepage,
            r.spec_description() == description,
            r.spec_app_type() == app_type,
    {
        Application { rdn, id, homepage, description, app_type }
    }

    /// The validated name, by read-only reference.
    pub fn rdn(&self) -> (r: &ApplicationRDN)
        ensures
            *r == self.spec_rdn(),
    {
        &self.rdn
    }

    /// The unique identifier, by copy.
    pub fn id(&self) -> (r: uuid::Uuid)
        ensures
            r == self.spec_id(),
    {
        self.id
    }

    /// The homepage, by read-only reference when present.
    pub fn homepage(&self) -> (r: Option<&url::Url>)
        ensures
            r is Some <==> self.spec_homepage() is Some,
            r matches Some(u) ==> self.spec_homepage() matches Some(h) && *u == h,
    {
        match &self.homepage {
            Some(u) => Some(u),
            None => None,
        }
    }

    /// The description, by read-only reference when present.
    pub fn description(&self) -> (r: Option<&String>)
        ensures
            r is Some <==> self.spec_description() is Some,
            r matches Some(d) ==> self.spec_description() matches Some(v) && *d == v,
    {
        match &self.description {
            Some(d) => Some(d),
            None => None,
        }
    }

    /// The kind tag, by read-only reference when present.
    pub fn app_type(&self) -> (r: Option<&ApplicationsType>)
        ensures
            r is Some <==> self.spec_app_type() is Some,
            r matches Some(t) ==> self.spec_app_type() matches Some(v) && *t == v,
    {
        match &self.app_type {
            Some(t) => Some(t),
            None => None,
        }
    }
}

} // verus!
