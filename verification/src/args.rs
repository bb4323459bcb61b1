//! The arguments of the command line: the input file and what to make of it.

use vstd::prelude::*;
use vstd::string::StringExecFns;
use crate::error::{Error, ErrorKind, failure};
use crate::text::{char_at, chars_of, push_range, str_eq};

verus! {

/// What the compiler is asked to make.
#[derive(PartialEq, Eq, Structural, Clone, Copy, Debug)]
pub enum Process {
    /// A header from one source file.
    Lib,
    /// A program from one source file.
    Exe,
    /// A header from every source file of a directory.
    Build,
}

/// The arguments of the command line.
#[derive(Debug)]
pub struct Args {
    filename: Option<String>,
    process: Process,
}

/// The arguments as plain values.
pub struct ArgsView {
    pub filename: Option<Seq<char>>,
    pub process: Process,
}

/// The name without its last four characters, which hold the extension; a
/// shorter name is kept whole.
pub open spec fn bare_name(name: Seq<char>) -> Seq<char> {
    if name.len() >= 4 {
        name.subrange(0, name.len() - 4)
    } else {
        name
    }
}

/// Whether an argument is a flag: it starts with `--`.
pub open spec fn is_flag(argument: Seq<char>) -> bool {
    argument.len() >= 2 && argument[0] == '-' && argument[1] == '-'
}

/// The process that a flag asks for, if it is a known flag.
pub open spec fn flag_process(argument: Seq<char>) -> Option<Process> {
    if argument == "--lib"@ {
        Some(Process::Lib)
    } else if argument == "--exe"@ {
        Some(Process::Exe)
    } else if argument == "--build"@ {
        Some(Process::Build)
    } else {
        None
    }
}

/// The arguments after those of the command line from `i` on are read: a
/// known flag sets the process, an unknown flag is a failure, anything else
/// is the file name. Of several the last one counts.
pub open spec fn read_arguments(arguments: Seq<Seq<char>>, i: nat, acc: ArgsView) -> Result<ArgsView, crate::error::ErrorView>
    decreases arguments.len() - i,
{
    if i >= arguments.len() {
        Ok(acc)
    } else if is_flag(arguments[i as int]) {
        match flag_process(arguments[i as int]) {
            Some(process) => read_arguments(arguments, i + 1, ArgsView { process, ..acc }),
            None => Err(failure(ErrorKind::UnexpectedCliFlag, arguments[i as int])),
        }
    } else {
        read_arguments(arguments, i + 1, ArgsView { filename: Some(arguments[i as int]), ..acc })
    }
}

impl View for Args {
    type V = ArgsView;

    closed spec fn view(&self) -> ArgsView {
        ArgsView {
            filename: match self.filename {
                Some(name) => Some(name@),
                None => None,
            },
            process: self.process,
        }
    }
}

impl Args {
    /// No file, and a program to make.
    pub fn new() -> (args: Self)
        ensures
            args@ == (ArgsView { filename: None, process: Process::Exe }),
    {
        Self { filename: None, process: Process::Exe }
    }

    /// Reads the arguments of a command line.
    pub fn from_arguments(arguments: &Vec<String>) -> (r: Result<Self, Error>)
        ensures
            match r {
                Ok(args) => read_arguments(crate::paths::segment_texts(arguments@), 0, ArgsView { filename: None, process: Process::Exe }) == Ok::<ArgsView, crate::error::ErrorView>(args@),
                Err(error) => read_arguments(crate::paths::segment_texts(arguments@), 0, ArgsView { filename: None, process: Process::Exe }) == Err::<ArgsView, crate::error::ErrorView>(error@),
            },
    {
        let mut args = Args::new();
        let mut i: usize = 0;
        while i < arguments.len()
            invariant
                i <= arguments.len(),
                read_arguments(crate::paths::segment_texts(arguments@), 0, ArgsView { filename: None, process: Process::Exe })
                    == read_arguments(crate::paths::segment_texts(arguments@), i as nat, args@),
            decreases arguments.len() - i,
        {
            let argument = &arguments[i];
            let chars = chars_of(argument.as_str());
            if chars.len() >= 2 && char_at(&chars, 0) == '-' && char_at(&chars, 1) == '-' {
                if str_eq(argument.as_str(), "--lib") {
                    args.mark_lib();
                } else if str_eq(argument.as_str(), "--exe") {
                    args.mark_exe();
                } else if str_eq(argument.as_str(), "--build") {
                    args.mark_build();
                } else {
                    return Err(Error::UnexpectedCliFlag(argument.clone()));
                }
            } else {
                args.set_filename(argument.clone());
            }
            i = i + 1;
        }
        Ok(args)
    }

    /// Sets the file name.
    pub fn set_filename(&mut self, f: String)
        ensures
            final(self)@ == (ArgsView { filename: Some(f@), ..old(self)@ }),
    {
        self.filename = Some(f);
    }

    /// Asks for a header.
    pub fn mark_lib(&mut self)
        ensures
            final(self)@ == (ArgsView { process: Process::Lib, ..old(self)@ }),
    {
        self.process = Process::Lib;
    }

    /// Asks for a program.
    pub fn mark_exe(&mut self)
        ensures
            final(self)@ == (ArgsView { process: Process::Exe, ..old(self)@ }),
    {
        self.process = Process::Exe;
    }

    /// Asks for the headers of a directory.
    pub fn mark_build(&mut self)
        ensures
            final(self)@ == (ArgsView { process: Process::Build, ..old(self)@ }),
    {
        self.process = Process::Build;
    }

    /// What is asked for.
    pub fn get_process(&self) -> (process: Process)
        ensures
            process == self@.process,
    {
        self.process
    }

    /// The file name; a failure if none was given.
    pub fn get_filename(&self) -> (r: Result<String, Error>)
        ensures
            match r {
                Ok(name) => self@.filename == Some(name@),
                Err(error) => self@.filename is None && error@ == failure(ErrorKind::NoFileProvided, Seq::empty()),
            },
    {
        match &self.filename {
            Some(f) => Ok(f.clone()),
            None => Err(Error::NoFileProvided),
        }
    }

    /// The file name without its extension; a failure if none was given.
    pub fn get_bare_filename(&self) -> (r: Result<String, Error>)
        ensures
            match r {
                Ok(name) => self@.filename is Some && name@ == bare_name(self@.filename->0),
                Err(error) => self@.filename is None && error@ == failure(ErrorKind::NoFileProvided, Seq::empty()),
            },
    {
        match &self.filename {
            Some(f) => {
                let chars = chars_of(f.as_str());
                if chars.len() >= 4 {
                    let mut bare = String::new();
                    push_range(&mut bare, &chars, 0, chars.len() - 4);
                    Ok(bare)
                } else {
                    Ok(f.clone())
                }
            },
            None => Err(Error::NoFileProvided),
        }
    }

    /// The name of the output file: the bare file name with `extension`
    /// after it; a failure if no file name was given.
    pub fn get_output_filename(&self, extension: &str) -> (r: Result<String, Error>)
        ensures
            match r {
                Ok(name) => self@.filename is Some && name@ == bare_name(self@.filename->0) + extension@,
                Err(error) => self@.filename is None && error@ == failure(ErrorKind::NoFileProvided, Seq::empty()),
            },
    {
        let mut name = self.get_bare_filename()?;
        name.append(extension);
        Ok(name)
    }
}

} // verus!
