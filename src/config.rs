//! The run's settings: where files go and which names mean what.
use vstd::prelude::*;

use crate::text::{split_list, split_on, views};

verus! {

/// The settings of one run. Built once and only read afterwards.
pub struct Config {
    /// Root of the date-bucketed destination tree.
    pub destination: String,
    /// Extensions of media files to copy, lower-case and without the dot.
    pub image_extensions: Vec<String>,
    /// Extensions that are expected and ignored without a report.
    pub other_extensions: Vec<String>,
    /// Directory entry names that are never descended into.
    pub folders_to_skip: Vec<String>,
    /// Files smaller than this many bytes are never copied.
    pub min_size: u64,
    /// Compute and report every decision, but change nothing on disk.
    pub dry: bool,
    /// Replace files that already exist at their destination.
    pub overwrite: bool,
}

/// The mathematical value of a [`Config`].
pub ghost struct ConfigModel {
    pub destination: Seq<char>,
    pub images: Set<Seq<char>>,
    pub others: Set<Seq<char>>,
    pub skip: Set<Seq<char>>,
    pub min_size: nat,
    pub dry: bool,
    pub overwrite: bool,
}

/// The set of texts held by a vector of strings.
pub open spec fn name_set(v: Seq<String>) -> Set<Seq<char>> {
    views(v).to_set()
}

impl View for Config {
    type V = ConfigModel;

    open spec fn view(&self) -> ConfigModel {
        ConfigModel {
            destination: self.destination@,
            images: name_set(self.image_extensions@),
            others: name_set(self.other_extensions@),
            skip: name_set(self.folders_to_skip@),
            min_size: self.min_size as nat,
            dry: self.dry,
            overwrite: self.overwrite,
        }
    }
}

/// Whether one of the strings of `v` is `s`.
pub fn contains_name(v: &Vec<String>, s: &String) -> (r: bool)
    ensures
        r == name_set(v@).contains(s@),
{
    let mut i: usize = 0;
    while i < v.len()
        invariant
            i <= v@.len(),
            forall|j: int| 0 <= j < i ==> v@[j]@ != s@,
        decreases v.len() - i,
    {
        if v[i] == *s {
            proof {
                assert(views(v@)[i as int] == s@);
            }
            return true;
        }
        i = i + 1;
    }
    proof {
        if name_set(v@).contains(s@) {
            let k = choose|k: int| 0 <= k < views(v@).len() && views(v@)[k] == s@;
            assert(v@[k]@ == s@);
        }
    }
    false
}

impl Config {
    /// Settings from `|`-separated lists of image extensions, other known
    /// extensions and directory names to skip. Existing destination files
    /// are kept; see [`Config::with_overwrite`].
    pub fn new(
        destination: String,
        image: &str,
        other: &str,
        folders: &str,
        dry: bool,
        min_size: u64,
    ) -> (r: Config)
        ensures
            r@.destination == destination@,
            r@.images == split_on(image@, '|').to_set(),
            r@.others == split_on(other@, '|').to_set(),
            r@.skip == split_on(folders@, '|').to_set(),
            r@.min_size == min_size,
            r@.dry == dry,
            !r@.overwrite,
    {
        let image_extensions = split_list(image);
        let other_extensions = split_list(other);
        let folders_to_skip = split_list(folders);
        Config {
            destination,
            image_extensions,
            other_extensions,
            folders_to_skip,
            min_size,
            dry,
            overwrite: false,
        }
    }

    /// The same settings with the overwrite policy set to `overwrite`.
    pub fn with_overwrite(self, overwrite: bool) -> (r: Config)
        ensures
            r@ == (ConfigModel { overwrite, ..self@ }),
    {
        Config { overwrite, ..self }
    }
}

} // verus!
