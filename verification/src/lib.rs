//! A small library for organizing a directory of files: it classifies files
//! by extension into category folders, splits them further by last-modified
//! date, detects byte-identical duplicates by content hash, and drives a
//! watch loop that re-organizes when new files appear.

mod category;
mod date;
mod digits;
mod filename;
mod hashing;
mod organize;
mod watch;

pub use watch::WatchEvent;
pub use watch::WatchState;
pub use watch::WatchAction;
pub use watch::qualifies;
pub use watch::spec_watch_step;
pub use watch::watch_step;
pub use watch::pass_finished;
pub use watch::lemma_watch_loop_stays_alive;

pub use organize::SeenDigests;
pub use organize::Destination;
pub use organize::dest_well_formed;
pub use organize::spec_route;
pub use organize::route_file;
pub use organize::FileMeta;
pub use organize::dup_at;
pub use organize::digests_upto;
pub use organize::spec_destination;
pub use organize::PlannedMove;
pub use organize::plan_pass;
pub use organize::lemma_one_original_per_content;
pub use organize::lemma_later_copies_are_duplicates;
pub use organize::lemma_distinct_content_classified;
pub use organize::lemma_second_pass_has_nothing_to_do;
pub use organize::move_decision;
pub use organize::spec_rel_dest;
pub use organize::spec_dest_dir;
pub use organize::spec_dest_path;
pub use organize::rel_dest;
pub use organize::dest_dir;
pub use organize::dest_path;

pub use filename::last_dot;
pub use filename::spec_extension_of;
pub use filename::extension_of;

pub use hashing::ContentHasher;
pub use hashing::sha256_of;
pub use hashing::hex_of;
pub use hashing::hex_string;
pub use hashing::lemma_hex_of_len;
pub use hashing::lemma_hex_of_injective;

pub use date::Date;
pub use date::dec_str;
pub use date::year_str;
pub use date::two_digits;
pub use date::spec_date_str;
pub use date::append_decimal;
pub use date::date_string;
pub use date::local_date_of;
pub use digits::digit_char;
pub use digits::digit_str;

pub use category::Category;
pub use category::category_of;
pub use category::spec_category_of;
pub use category::folder_name;
pub use category::spec_folder_name;
pub use category::eq_ignore_ascii_case;
pub use category::chars_eq_nocase;
pub use category::fold_case;
