//! What the calls of this library come to, each said by what goes in and what comes out: of documents
//! by the fields that they hold, of filters by the documents that they select, of updates by what
//! they make of a document. Nothing here runs.
pub mod changes;
pub mod claims;
pub mod figures;
pub mod loops;
pub mod requests;
pub mod runs;
pub mod visits;
pub mod waits;
