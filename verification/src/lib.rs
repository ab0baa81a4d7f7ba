pub mod codec;
pub mod ident;
pub mod laws;
pub mod translate;
pub mod value;

pub use codec::{decode_dag_cbor, encode_dag_cbor};
pub use translate::json_to_ipld;
pub use value::{IpldValue, JsonValue};
