//! Codec for the opaque colon-delimited resource identifiers that the
//! upstream API uses (`urn:<qualifier>:<namespace>:<id>`).

use vstd::prelude::*;
use vstd::string::*;

use crate::error::LinkedinError;
use crate::strutil::split_on;
use crate::strutil::split_str;

verus! {

/// A decomposed resource identifier: the namespace (the context of the id)
/// and the id itself.
#[derive(Debug)]
pub struct UniformResourceName {
    /// The context of the id.
    pub namespace: String,
    /// The identifying component.
    pub id: String,
}

impl UniformResourceName {
    /// Parses a raw identifier. A valid identifier has at least four
    /// colon-delimited parts; the third is the namespace and the fourth the
    /// id. Any other part is ignored, so qualifier variants still parse.
    /// Fewer than four parts is rejected as invalid input.
    pub fn parse(raw: &str) -> (r: Result<UniformResourceName, LinkedinError>)
        ensures
            r is Ok <==> split_on(raw@, ':').len() >= 4,
            r matches Ok(urn) ==> urn.namespace@ == split_on(raw@, ':')[2] && urn.id@ == split_on(
                raw@,
                ':',
            )[3],
            r matches Err(e) ==> e matches LinkedinError::InvalidInput(_),
    {
        let parts = split_str(raw, ':');
        proof {
            assert(parts.deep_view().len() == parts@.len());
        }
        if parts.len() < 4 {
            return Err(
                LinkedinError::InvalidInput(
                    "identifier needs at least 4 colon-delimited parts".to_owned(),
                ),
            );
        }
        let namespace = parts[2].clone();
        let id = parts[3].clone();
        proof {
            assert(namespace@ == parts.deep_view()[2]);
            assert(id@ == parts.deep_view()[3]);
        }
        Ok(UniformResourceName { namespace, id })
    }

    /// Reconstructs the canonical textual form `urn:li:<namespace>:<id>`.
    /// This is not guaranteed to byte-reproduce the string that was parsed:
    /// only the namespace and id are kept.
    pub fn format(&self) -> (r: String)
        ensures
            r@ == "urn:li:"@ + self.namespace@ + ":"@ + self.id@,
    {
        let mut out = "urn:li:".to_owned();
        out.append(self.namespace.as_str());
        out.append(":");
        out.append(self.id.as_str());
        out
    }

    /// The identifying component; never fails.
    pub fn id_of(&self) -> (r: &String)
        ensures
            r@ == self.id@,
    {
        &self.id
    }
}

/// Chooses the id an endpoint targets: the public id when given, else the
/// identifier's id component; with neither, the request is invalid input.
pub fn resolve_target_id(public_id: Option<&str>, urn: Option<&UniformResourceName>) -> (r: Result<
    String,
    LinkedinError,
>)
    ensures
        r is Ok <==> (public_id is Some || urn is Some),
        public_id matches Some(p) ==> (r matches Ok(id) && id@ == p@),
        public_id is None ==> (urn matches Some(u) ==> (r matches Ok(id) && id@ == u.id@)),
        r matches Err(e) ==> e matches LinkedinError::InvalidInput(_),
{
    match public_id {
        Some(pid) => Ok(pid.to_owned()),
        None => match urn {
            Some(u) => Ok(u.id.clone()),
            None => Err(
                LinkedinError::InvalidInput(
                    "either a public id or a resource identifier is required".to_owned(),
                ),
            ),
        },
    }
}

/// Chooses between two optional textual ids, preferring the first; with
/// neither, the request is invalid input.
pub fn resolve_target_id_str(public_id: Option<&str>, urn_id: Option<&str>) -> (r: Result<
    String,
    LinkedinError,
>)
    ensures
        r is Ok <==> (public_id is Some || urn_id is Some),
        public_id matches Some(p) ==> (r matches Ok(id) && id@ == p@),
        public_id is None ==> (urn_id matches Some(u) ==> (r matches Ok(id) && id@ == u@)),
        r matches Err(e) ==> e matches LinkedinError::InvalidInput(_),
{
    match public_id {
        Some(pid) => Ok(pid.to_owned()),
        None => match urn_id {
            Some(u) => Ok(u.to_owned()),
            None => Err(
                LinkedinError::InvalidInput(
                    "either a public id or a resource identifier is required".to_owned(),
                ),
            ),
        },
    }
}

/// Extracts the id component of an optional identifier.
pub fn get_id_from_urn(urn: Option<UniformResourceName>) -> (r: Option<String>)
    ensures
        urn matches Some(u) ==> r == Some(u.id),
        urn is None ==> r is None,
{
    if let Some(secure_urn) = urn {
        Some(secure_urn.id)
    } else {
        None
    }
}

} // verus!
