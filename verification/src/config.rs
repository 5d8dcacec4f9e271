//! The two paths that a run is given.

use vstd::prelude::*;

verus! {

/// Where a run reads its posts and where it appends their digests.
pub struct Config {
    pub infile: String,
    pub outfile: String,
}

/// What a [`Config`] holds, as the contracts see it.
pub ghost struct ConfigView {
    pub infile: Seq<char>,
    pub outfile: Seq<char>,
}

impl View for Config {
    type V = ConfigView;

    open spec fn view(&self) -> ConfigView {
        ConfigView { infile: self.infile@, outfile: self.outfile@ }
    }
}

impl Config {
    /// Reads the paths from a command line: the program's name, the input
    /// path, the output path. Anything after them is ignored.
    pub fn new(args: &[String]) -> (r: Result<Config, &'static str>)
        ensures
            args@.len() < 3 ==> r is Err && r->Err_0@ == "not enough arguments"@,
            args@.len() >= 3 ==> r is Ok && r->Ok_0@ == (ConfigView {
                infile: args@[1]@,
                outfile: args@[2]@,
            }),
    {
        if args.len() < 3 {
            return Err("not enough arguments");
        }
        let infile = args[1].clone();
        let outfile = args[2].clone();

        Ok(Config { infile, outfile })
    }
}

} // verus!
