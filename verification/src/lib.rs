//! Oracle BRM helper library: field tables per session, PODL generation from
//! field and class specifications, FLIST conversion to C code, XML and (with
//! an outside tool) JSON, the decisions of the HTTP service, and the
//! structure of BRM call stack traces.
pub mod text;
pub mod number;
pub mod fields;
pub mod wordchar;
pub mod lfield;
pub mod flist;
pub mod flist_json;
pub mod podl;
pub mod service;
pub mod laws;
pub mod output_laws;
pub mod calltree;
pub mod tracezip;
