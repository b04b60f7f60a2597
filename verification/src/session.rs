use vstd::prelude::*;

verus! {

/// The access role a session runs under.
#[derive(Debug, Clone, Copy, PartialEq, Eq, Structural)]
pub enum Role {
    Owner,
    Editor,
    Viewer,
}

/// The fixed scope every query executes under: one namespace, one database
/// within it, and one access role. It is assembled once at process start,
/// shared read-only by every repository call, and never mutated; it is not
/// tied to any single request.
#[derive(Debug)]
pub struct SessionContext {
    pub namespace: String,
    pub database: String,
    pub role: Role,
}

impl SessionContext {
    /// A session scope for the given namespace, database and role.
    pub fn new(namespace: String, database: String, role: Role) -> (r: SessionContext)
        ensures
            r.namespace@ == namespace@,
            r.database@ == database@,
            r.role == role,
    {
        SessionContext { namespace, database, role }
    }

    /// The owner-level scope for one database: the single fixed identity
    /// this service runs under.
    pub fn owner(namespace: String, database: String) -> (r: SessionContext)
        ensures
            r.namespace@ == namespace@,
            r.database@ == database@,
            r.role == Role::Owner,
    {
        SessionContext::new(namespace, database, Role::Owner)
    }
}

} // verus!
