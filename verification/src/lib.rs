//! A small verified bridge around a URL value type.
//!
//! `url_value` wraps one parsed URL and exposes construction from absolute
//! or relative text together with a lenient `host` accessor pair.
//! `bridge` holds the class-constructor decision logic and the naming
//! translation that a script-facing binding layer needs: it turns parse
//! failures into the exact error messages the script side must see.

pub mod bridge;
pub mod url_value;
