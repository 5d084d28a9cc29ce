//! Which users may reach which cameras: a join table of association records
//! with create, read, update and delete, the cameras a user may reach, and the
//! check that admits a user to one camera.

pub mod api_error;
pub mod camera;
pub mod ident;
pub mod user_tokens;
pub mod join_table;
pub mod users_cameras;
