//! Forecasts a person's cash position, net worth and date of financial
//! independence from a declared set of incomes, expenses, assets and
//! spending goals.
//!
//! Everything is reckoned month by month from a reference date. Each
//! source of income or expense is laid out as a series of changes, one per
//! month; the series are merged, spending goals are taken in while they can
//! be afforded, and a search over the month of retirement looks for the
//! forecast that ends with the most cash without ever overdrawing the
//! account.
//!
//! - [`amount`]: money amounts, double-precision numbers held as bit
//!   patterns
//! - [`calendar`]: dates and month arithmetic
//! - [`utils`]: arithmetic on series of amounts
//! - [`models`]: the records and the changes each of them causes
//! - [`processing`]: the forecast
pub mod amount;
pub mod calendar;
pub mod models;
pub mod processing;
pub mod utils;
