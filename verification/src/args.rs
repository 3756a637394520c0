use vstd::prelude::*;

verus! {

/// What the program was started with.
#[derive(Debug, PartialEq, Eq)]
pub struct Args {
    file: String,
    data_dir: String,
    force: bool,
}

/// Model of [`Args`].
pub struct ArgsView {
    /// path of the snapshot file
    pub file: Seq<char>,
    /// path of the directory that data files are kept in
    pub data_dir: Seq<char>,
    /// whether the file is to be analysed anew
    pub force: bool,
}

impl View for Args {
    type V = ArgsView;

    closed spec fn view(&self) -> ArgsView {
        ArgsView { file: self.file@, data_dir: self.data_dir@, force: self.force }
    }
}

impl Args {
    pub fn new(file: String, data_dir: String, force: bool) -> (args: Args)
        ensures
            args@ == (ArgsView { file: file@, data_dir: data_dir@, force }),
    {
        Args { file, data_dir, force }
    }

    pub fn get_file(&self) -> (file: &String)
        ensures
            file@ == self@.file,
    {
        &self.file
    }

    pub fn get_data_dir(&self) -> (data_dir: &String)
        ensures
            data_dir@ == self@.data_dir,
    {
        &self.data_dir
    }

    pub fn is_force(&self) -> (force: &bool)
        ensures
            *force == self@.force,
    {
        &self.force
    }
}

} // verus!
