mod config;
mod errors;
mod store;
mod user;
mod validate;

pub use config::{DbConfig, build_config, connection_uri};
pub use errors::{AppError, RequestError};
pub use store::{StoredUser, UserData, UserStore, new_doc, has_id, unique_ids, updated_at_id,
    removed_at_id, lemma_listed_documents_are_valid, lemma_create_then_list, lemma_update_then_list, lemma_delete_then_list};
pub use validate::{ValidationErrors, validate, valid_user, validation_of, is_email};
pub use user::{User, UserId, parse_object_id, is_object_id_str, is_hex_digit, hex_digit_value,
    hex_value};
