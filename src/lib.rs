//! Case-mix grouping of clinical cases: a case record and a set of reference tables
//! go in, one classification code comes out. The stages are the category cascade
//! (`cascade`), the group strategies (`dispatch`), the exception pass and severity
//! grading (`grading`), composed in `drg`; `laws` states what holds of them all.

pub mod cascade;
pub mod category;
pub mod codes;
pub mod dispatch;
pub mod drg;
pub mod grading;
pub mod laws;
pub mod normalize;
pub mod record;
pub mod tables;
