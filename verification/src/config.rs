use vstd::prelude::*;
use crate::paths::{join, join_spec};
use crate::text::owned;

verus! {

/// Where the application keeps its data, and its lists directory.
#[derive(Debug)]
pub struct AppConfig {
    pub base_dir: String,
    pub lists_dir: String,
}

/// The base directory chosen from the home directory and the `base_dir`
/// setting of the configuration file (`None` when the file could not be read
/// or parsed): `./Emux` without a home directory, the setting unless it is
/// `default`, else `Emux` under the home directory.
pub open spec fn base_dir_spec(home: Option<Seq<char>>, configured: Option<Seq<char>>) -> Seq<char> {
    match home {
        None => "./Emux"@,
        Some(h) => match configured {
            Some(d) => if d != "default"@ {
                d
            } else {
                join_spec(h, "Emux"@)
            },
            None => join_spec(h, "Emux"@),
        },
    }
}

impl AppConfig {
    /// The configuration for a base directory: the lists live in its
    /// `lists` subdirectory.
    pub fn load(base_dir: String) -> (r: AppConfig)
        ensures
            r.base_dir == base_dir,
            r.lists_dir@ == join_spec(base_dir@, "lists"@),
    {
        let lists_dir = Self::get_lists_dir(&base_dir);
        AppConfig { base_dir, lists_dir }
    }

    /// Chooses the base directory (see `base_dir_spec`).
    pub fn get_base_dir(home: Option<String>, configured: Option<String>) -> (r: String)
        ensures
            r@ == base_dir_spec(
                match home {
                    Some(h) => Some(h@),
                    None => None,
                },
                match configured {
                    Some(d) => Some(d@),
                    None => None,
                },
            ),
    {
        match home {
            None => owned("./Emux"),
            Some(h) => {
                let dflt = owned("default");
                match configured {
                    Some(d) => {
                        if d != dflt {
                            d
                        } else {
                            join(h.as_str(), "Emux")
                        }
                    },
                    None => join(h.as_str(), "Emux"),
                }
            },
        }
    }

    /// The lists directory under a base directory.
    pub fn get_lists_dir(base_dir: &String) -> (r: String)
        ensures
            r@ == join_spec(base_dir@, "lists"@),
    {
        join(base_dir.as_str(), "lists")
    }
}

} // verus!
