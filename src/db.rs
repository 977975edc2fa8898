use crate::object_id::{is_object_id_text, object_id_bytes, RecordId};
use crate::seats::ResolveError;
use vstd::prelude::*;

verus! {

#[verifier::external_type_specification]
#[verifier::external_body]
pub struct ExClient(mongodb::Client);

/// A handle on one database of a document store: the driver's client and
/// the database's name.
pub struct MongoDB {
    client: mongodb::Client,
    db_name: String,
}

impl MongoDB {
    pub closed spec fn spec_db_name(&self) -> Seq<char> {
        self.db_name@
    }

    /// A handle on the database `db_name` reached through `client`.
    pub fn with_client(client: mongodb::Client, db_name: &str) -> (r: MongoDB)
        ensures
            r.spec_db_name() == db_name@,
    {
        MongoDB { client, db_name: db_name.to_owned() }
    }

    /// The driver's client.
    pub fn client(&self) -> &mongodb::Client {
        &self.client
    }

    /// The database's name.
    pub fn db_name(&self) -> (r: &str)
        ensures
            r@ == self.spec_db_name(),
    {
        self.db_name.as_str()
    }

    /// Parses the text of a document identifier: 24 hexadecimal digits, in
    /// either case. Any other text is an invalid identifier.
    pub fn string_to_id(&self, id: &str) -> (r: Result<RecordId, ResolveError>)
        ensures
            r is Ok <==> is_object_id_text(id@),
            r is Ok ==> r->Ok_0.bytes@ == object_id_bytes(id@),
            r is Err ==> r->Err_0 == ResolveError::InvalidVehicleId,
    {
        match RecordId::parse(id) {
            Some(record_id) => Ok(record_id),
            None => Err(ResolveError::InvalidVehicleId),
        }
    }
}

} // verus!
