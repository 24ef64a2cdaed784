//! A platform-neutral relative path.
//!
//! Paths are always read with `/` as the separator, whatever the host platform.
//! A path decomposes into its components: the non-empty runs of characters
//! between separators. Repeated separators count as one, and leading or
//! trailing ones yield no empty component.
//!
//! Equality and ordering go by that component sequence, never by the raw
//! text. In particular a leading separator takes no part in them:
//! `/foo/bar` equals `foo/bar`. It matters only when joining or pushing,
//! where a path that starts with a separator replaces the base.
//!
//! Texts are stored as given; separators are collapsed only when components
//! are read.

mod components;
mod laws;
mod native;
mod order;
mod path;

pub use components::{
    components_of, joined, lemma_components_split, lemma_run_len, run_len, starts_with_sep,
    Components, SEP,
};
pub use laws::{
    is_maximal_run, is_run_of, law_components_are_maximal_runs, law_components_well_formed,
    law_edge_separators, law_join_absolute, law_join_relative, law_push_empty,
    law_separator_runs_collapse, law_total_order,
};
pub use native::{native_extended, native_owned, native_pushed};
pub use order::{cmp_chars, cmp_components, compare_components, compare_str, reversed};
pub use path::{compare_paths, paths_eq, AsRelativePath, RelativePath, RelativePathBuf};
