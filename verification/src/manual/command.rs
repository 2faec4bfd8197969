//! The command that writes the manual pages.

use vstd::prelude::*;
use vstd::string::StringExecFns;
use crate::text::{concat3, concat4, decimal, decimal_string};

verus! {

/// One manual page to write.
#[derive(Clone, Debug, PartialEq, Eq)]
pub struct ManPage {
    /// The subcommand that the page is about, or nothing for the page of the
    /// program itself.
    pub subcommand: Option<String>,
    /// The name of the file of the page, inside the directory.
    pub file_name: String,
    /// What is logged before the page is written.
    pub log: String,
}

/// A [`ManPage`] as a mathematical value.
pub struct ManPageView {
    pub subcommand: Option<Seq<char>>,
    pub file_name: Seq<char>,
    pub log: Seq<char>,
}

impl View for ManPage {
    type V = ManPageView;

    open spec fn view(&self) -> ManPageView {
        ManPageView {
            subcommand: match self.subcommand {
                Some(s) => Some(s@),
                None => None,
            },
            file_name: self.file_name@,
            log: self.log@,
        }
    }
}

/// The pages of a list as a mathematical value.
pub open spec fn pages_view(v: Seq<ManPage>) -> Seq<ManPageView> {
    Seq::new(v.len(), |i: int| v[i]@)
}

/// The names of a list as a mathematical value.
pub open spec fn texts_view(v: Seq<String>) -> Seq<Seq<char>> {
    Seq::new(v.len(), |i: int| v[i]@)
}

/// The page of the program itself.
pub open spec fn program_page(program: Seq<char>) -> ManPageView {
    ManPageView {
        subcommand: None,
        file_name: program + ".1"@,
        log: "Generating man page for command "@ + program + "…"@,
    }
}

/// The page of one subcommand.
pub open spec fn subcommand_page(program: Seq<char>, subcommand: Seq<char>) -> ManPageView {
    ManPageView {
        subcommand: Some(subcommand),
        file_name: program + "-"@ + subcommand + ".1"@,
        log: "Generating man page for subcommand "@ + subcommand + "…"@,
    }
}

/// The pages to write: that of the program, then one for each subcommand in
/// order.
pub open spec fn spec_pages(program: Seq<char>, subcommands: Seq<Seq<char>>) -> Seq<ManPageView> {
    seq![program_page(program)] + Seq::new(
        subcommands.len(),
        |i: int| subcommand_page(program, subcommands[i]),
    )
}

/// The line that closes the command: how many pages were written, and where.
/// The directory is given as it is shown.
pub open spec fn spec_summary(pages: nat, dir: Seq<char>) -> Seq<char> {
    decimal(pages) + " man page(s) successfully generated in "@ + dir + "!"@
}

/// Generate manual pages to a directory. A directory that does not exist is
/// made; pages that exist are overwritten.
#[derive(Clone, Debug, PartialEq, Eq)]
pub struct GenerateManualCommand {
    /// The directory in which the pages are written.
    pub dir: String,
}

impl GenerateManualCommand {
    /// The pages to write for a program and its subcommands.
    pub fn pages(&self, program: &str, subcommands: &Vec<String>) -> (r: Vec<ManPage>)
        ensures
            pages_view(r@) == spec_pages(program@, texts_view(subcommands@)),
    {
        let ghost subs = texts_view(subcommands@);
        let mut pages: Vec<ManPage> = Vec::new();
        pages.push(
            ManPage {
                subcommand: None,
                file_name: {
                    let mut f = String::from_str(program);
                    f.append(".1");
                    f
                },
                log: concat3("Generating man page for command ", program, "…"),
            },
        );
        let mut i: usize = 0;
        while i < subcommands.len()
            invariant
                i <= subcommands.len(),
                subs == texts_view(subcommands@),
                pages_view(pages@) == seq![program_page(program@)] + Seq::new(
                    i as nat,
                    |k: int| subcommand_page(program@, subs[k]),
                ),
            decreases subcommands.len() - i,
        {
            let name = subcommands[i].as_str();
            let page = ManPage {
                subcommand: Some(String::from_str(name)),
                file_name: concat4(program, "-", name, ".1"),
                log: concat3("Generating man page for subcommand ", name, "…"),
            };
            let ghost before = pages_view(pages@);
            pages.push(page);
            assert(pages_view(pages@) =~= before.push(page@));
            i = i + 1;
        }
        pages
    }

    /// The line that closes the command, for the given number of
    /// subcommands and the directory as it is shown.
    pub fn summary(&self, subcommands: usize, dir_shown: &str) -> (r: String)
        ensures
            r@ == spec_summary((subcommands + 1) as nat, dir_shown@),
    {
        let count = decimal_string((subcommands as u128) + 1);
        concat4(count.as_str(), " man page(s) successfully generated in ", dir_shown, "!")
    }
}

} // verus!
