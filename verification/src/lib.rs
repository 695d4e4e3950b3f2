//! Bridge logic for driving native SQL backends on behalf of a managed host
//! environment through one uniform protocol: tagged parameter marshaling,
//! projection of backend column types into a uniform row shape, opaque handle
//! lifecycle, and an out-of-band error channel paired with sentinel returns.
//!
//! The host boundary (JNI) and the backend connections themselves perform I/O
//! and carry native floating-point values; they live outside this crate. This
//! crate holds every decision the bridge makes: which native value a tagged
//! parameter becomes, which target shape a backend column type maps to, how a
//! result row is assembled, when a handle is valid, and what each operation
//! returns on success and on failure.

mod bridge;
mod host;
mod mysql_columns;
mod params;
mod postgres_columns;
mod row;
mod text;

pub use bridge::DriverContext;
pub use bridge::lemma_disposed_handle_not_reissued;
pub use host::Java;
pub use host::spec_class_name;
pub use mysql_columns::MysqlColumnType;
pub use mysql_columns::mysql_target_shape;
pub use mysql_columns::plan_mysql_columns;
pub use mysql_columns::spec_mysql_target_shape;
pub use params::MysqlValue;
pub use params::ParamKind;
pub use params::SqlParameter;
pub use params::marshal_params;
pub use params::parameter_kind;
pub use params::spec_parameter_kind;
pub use params::to_mysql_value;
pub use params::wire_of;
pub use postgres_columns::plan_postgres_columns;
pub use postgres_columns::postgres_target_shape;
pub use postgres_columns::spec_postgres_target_shape;
pub use row::CellValue;
pub use row::ColumnShape;
pub use row::ProjectionError;
pub use row::SqlRow;
pub use row::assemble_row;
pub use row::assemblable;
pub use row::cell_matches;
pub use row::cell_views;
pub use row::error_explains;
pub use row::lemma_null_kept_in_place;
pub use row::lemma_projection_idempotent;
pub use row::project_result;
pub use row::result_assemblable;
pub use row::row_projects;
