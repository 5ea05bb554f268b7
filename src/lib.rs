//! User records: the data model, partial updates, an in-memory collection
//! with the document store's semantics, the existence-gate protocol that
//! guards every mutation, and the JSON replies of the request handlers.

mod error;
mod handlers;
mod laws;
mod model;
mod reply;
mod request;
mod store;

pub use error::{error_message, request_error_of, ErrorView, MyError, RequestError, RequestErrorView};
pub use handlers::{
    assign_id, delete_effect, ensure_id, existence_gate, handle_delete_user, handle_get_all_users,
    handle_insert_user, handle_update_user, update_effect, with_assigned_id,
};
pub use laws::{
    law_delete_idempotent, law_existence_gate, law_get_all_cardinality, law_insert_then_get,
    law_missing_id_rejected, law_update_is_partial, removed_all, stored_all,
};
pub use model::{merge, opt_view, payload_fields, PayloadView, UpdatePayload, User, UserView};
pub use reply::{
    comma_joined, delete_reply, delete_reply_view, failure_reply, insert_reply, insert_reply_view,
    json_array, json_member, json_object, json_string, rejection_reply, rejection_view,
    render_user, status_body, status_body_with, update_reply, update_reply_view, user_json,
    users_reply, users_reply_view, Reply, ReplyView,
};
pub use request::{
    entries_view, id_of, parse_update, payload_of, payload_step, update_request, FieldValue,
    FieldValueView,
};
pub use store::{
    any_with_id, has_id, index_of, lookup, removed, stored, unique_ids, updated, user_from_lookup,
    UserStore,
};
