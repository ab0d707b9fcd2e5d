use vstd::prelude::*;

verus! {

/// What the program was started with.
pub struct Config {
    /// The path of the program image to run.
    pub rom_path: String,
}

impl Config {
    /// Reads the command line, the program's own name first: the next
    /// argument is the image's path, and at most one more may follow.
    pub fn new(args: Vec<String>) -> (res: Result<Config, &'static str>)
        ensures
            args@.len() > 3 ==> (res matches Err(message) && message@
                == "Not enough arguments"@),
            args@.len() <= 1 ==> (res matches Err(message) && message@
                == "No .c8 rom was supplied."@),
            2 <= args@.len() <= 3 ==> (res matches Ok(config) && config.rom_path@ == args@[1]@),
    {
        if args.len() > 3 {
            return Err("Not enough arguments");
        }
        if args.len() <= 1 {
            return Err("No .c8 rom was supplied.");
        }
        Ok(Config { rom_path: args[1].clone() })
    }
}

} // verus!
