//! Command-line arguments of a run and the paths derived from them.

use vstd::prelude::*;

verus! {

/// The path `file` relative to the directory `base`, joined the way Unix paths join:
/// an absolute `file` stands for itself, otherwise a `/` separates the two unless
/// `base` is empty or already ends with one.
pub open spec fn join_path(base: Seq<char>, file: Seq<char>) -> Seq<char> {
    if file.len() > 0 && file[0] == '/' {
        file
    } else if base.len() > 0 && base.last() != '/' {
        base + seq!['/'] + file
    } else {
        base + file
    }
}

/// Command-line arguments of a run.
#[derive(Debug, Clone)]
pub struct Args {
    /// The path to the input file.
    pub input_path: String,
    /// The path to the output folder, in which the subroutines write files.
    pub output_folder: String,
    /// The path to the data folder, from which inputs to subroutines are read.
    pub data_folder: String,
}

impl Args {
    /// The path of `file_name` inside the configured data folder.
    pub fn data_path(&self, file_name: &str) -> (p: String)
        ensures
            p@ == join_path(self.data_folder@, file_name@),
    {
        let file_len = file_name.unicode_len();
        if file_len > 0 && file_name.get_char(0) == '/' {
            return String::from_str(file_name);
        }
        let base = self.data_folder.as_str();
        let base_len = base.unicode_len();
        let mut p = String::from_str(base);
        if base_len > 0 && base.get_char(base_len - 1) != '/' {
            proof {
                reveal_strlit("/");
            }
            p.append("/");
        }
        p.append(file_name);
        p
    }
}

} // verus!
