pub mod employee;
pub mod generic_response;
pub mod get_paintings_query;
pub mod paginated_result;
pub mod salute_you;
