//! Everything that concerns the schema registry itself.
//!
//! - [`wire`]: the header with the schema identifier in the bytes of a record.
//! - [`error`]: the error of every operation.
//! - [`schema`], [`subject`]: schemas, references, and the subject that a
//!   naming strategy gives.
//! - [`text`], [`json`], [`http`], [`envelope`]: what is sent to the registry
//!   and what is read from its replies.
//! - [`resolution`], [`registry`]: a resolution as a sequence of steps, as a
//!   model and in code; [`post_order`]: what a registration amounts to
//!   as a whole.
//! - [`cache`], [`decoder`], [`encoder`]: what is kept of earlier resolutions,
//!   and the ways of a record through header, cache and registry.

pub mod cache;
pub mod decoder;
pub mod encoder;
pub mod envelope;
pub mod error;
pub mod http;
pub mod json;
pub mod post_order;
pub mod registry;
pub mod resolution;
pub mod schema;
pub mod subject;
pub mod text;
pub mod wire;

pub use self::cache::SchemaCache;
pub use self::decoder::{Decoder, Decoding};
pub use self::encoder::{Encoder, Encoding};
pub use self::envelope::{
    get_body, id_from_reply, reference_from_json, schema_from_json, schema_from_reply,
    version_from_reply,
};
pub use self::error::{SRCError, SRCErrorView};
pub use self::http::{to_json, Reply, Request, CONTENT_TYPE};
pub use self::json::{parse_json, Json, JsonNumber};
pub use self::registry::{
    get_referenced_schema, get_schema_by_id, get_schema_by_id_and_type, get_schema_by_subject,
    post_schema, Pending, Resolution,
};
pub use self::schema::{
    RegisteredReference, RegisteredSchema, SchemaType, SuppliedReference, SuppliedSchema,
};
pub use self::subject::{get_schema, get_subject, SubjectNameStrategy};
pub use self::wire::{get_bytes_result, get_payload, BytesResult};
