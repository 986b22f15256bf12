//! Typed facade over a platform-native Wi-Fi plugin.
//!
//! The library is the platform-independent half of a mobile plugin binding:
//! it fixes the typed request and response shapes of every Wi-Fi operation,
//! the string method name each operation dispatches to, and the exact way a
//! native outcome — success, dispatch failure, or a worker that never ran to
//! completion — becomes the result handed to the host application.  The
//! platform glue that actually reaches the native layer lives outside the
//! library and feeds every outcome through the functions here.

pub mod dispatch;
pub mod error;
pub mod facade;
pub mod models;

pub use error::Error;
