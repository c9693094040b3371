//! Documented API endpoints and their code examples.
use vstd::prelude::*;
use super::errors::Error;
use super::storage::Storage;
use super::types::{ApiEndpoint, ApiParameter, CodeExample};

verus! {

/// `e` is the endpoint that `create_endpoint` makes from these arguments.
pub open spec fn is_new_endpoint(
    e: ApiEndpoint,
    endpoint_id: String,
    name: String,
    description: String,
    method: String,
    path: String,
    parameters: Vec<ApiParameter>,
    response_schema: String,
    version: String,
) -> bool {
    &&& e.endpoint_id == endpoint_id
    &&& e.name == name
    &&& e.description == description
    &&& e.method == method
    &&& e.path == path
    &&& e.parameters == parameters
    &&& e.response_schema == response_schema
    &&& e.code_examples@ == Seq::<CodeExample>::empty()
    &&& e.version == version
}

/// `after` is `before` with `example` appended to its code examples.
pub open spec fn with_example(after: ApiEndpoint, before: ApiEndpoint, example: CodeExample) -> bool {
    &&& after.endpoint_id == before.endpoint_id
    &&& after.name == before.name
    &&& after.description == before.description
    &&& after.method == before.method
    &&& after.path == before.path
    &&& after.parameters == before.parameters
    &&& after.response_schema == before.response_schema
    &&& after.code_examples@ == before.code_examples@.push(example)
    &&& after.version == before.version
}

/// Manages API documentation.
pub struct ApiDocManager;

impl ApiDocManager {
    /// Stores a new endpoint with no code examples.
    pub fn create_endpoint(
        s: &mut Storage,
        endpoint_id: String,
        name: String,
        description: String,
        method: String,
        path: String,
        parameters: Vec<ApiParameter>,
        response_schema: String,
        version: String,
    ) -> (r: Result<ApiEndpoint, Error>)
        requires
            old(s).wf(),
        ensures
            final(s).wf(),
            old(s).endpoints@.contains_key(endpoint_id@) ==> (r matches Err(e) && e == Error::AlreadyExists)
                && *final(s) == *old(s),
            !old(s).endpoints@.contains_key(endpoint_id@) ==> {
                &&& final(s).endpoints@.remove(endpoint_id@) == old(s).endpoints@.remove(endpoint_id@)
                &&& final(s).endpoints@.contains_key(endpoint_id@)
                &&& is_new_endpoint(
                    final(s).endpoints@[endpoint_id@],
                    endpoint_id,
                    name,
                    description,
                    method,
                    path,
                    parameters,
                    response_schema,
                    version,
                )
                &&& r matches Ok(e) && e.same_as(&final(s).endpoints@[endpoint_id@])
                &&& *final(s) == (Storage { endpoints: final(s).endpoints, ..*old(s) })
            },
    {
        if s.endpoints.contains_key(&endpoint_id) {
            return Err(Error::AlreadyExists);
        }
        let endpoint = ApiEndpoint {
            endpoint_id: endpoint_id.clone(),
            name,
            description,
            method,
            path,
            parameters,
            response_schema,
            code_examples: Vec::new(),
            version,
        };
        let result = endpoint.copied();
        s.endpoints.insert(endpoint_id, endpoint);
        assert(s.endpoints@.remove(endpoint_id@) =~= old(s).endpoints@.remove(endpoint_id@));
        Ok(result)
    }

    /// Appends a code example to an endpoint.
    pub fn add_code_example(s: &mut Storage, endpoint_id: String, example: CodeExample) -> (r: Result<(), Error>)
        requires
            old(s).wf(),
        ensures
            final(s).wf(),
            !old(s).endpoints@.contains_key(endpoint_id@) ==> r == Err::<(), Error>(Error::DocumentNotFound)
                && *final(s) == *old(s),
            old(s).endpoints@.contains_key(endpoint_id@) ==> {
                &&& r is Ok
                &&& final(s).endpoints@.remove(endpoint_id@) == old(s).endpoints@.remove(endpoint_id@)
                &&& final(s).endpoints@.contains_key(endpoint_id@)
                &&& with_example(final(s).endpoints@[endpoint_id@], old(s).endpoints@[endpoint_id@], example)
                &&& *final(s) == (Storage { endpoints: final(s).endpoints, ..*old(s) })
            },
    {
        let mut endpoint = match s.endpoints.take(&endpoint_id) {
            Some(e) => e,
            None => {
                return Err(Error::DocumentNotFound);
            },
        };
        endpoint.code_examples.push(example);
        s.endpoints.insert(endpoint_id, endpoint);
        assert(s.endpoints@.remove(endpoint_id@) =~= old(s).endpoints@.remove(endpoint_id@));
        Ok(())
    }

    /// A copy of the endpoint stored under `endpoint_id`.
    pub fn get_endpoint(s: &Storage, endpoint_id: &String) -> (r: Option<ApiEndpoint>)
        requires
            s.wf(),
        ensures
            r is Some <==> s.endpoints@.contains_key(endpoint_id@),
            r matches Some(e) ==> e.same_as(&s.endpoints@[endpoint_id@]),
    {
        match s.endpoints.get(endpoint_id) {
            Some(e) => Some(e.copied()),
            None => None,
        }
    }
}

} // verus!
