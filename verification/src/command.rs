//! Resolution of the command whose image replaces the process: an explicit
//! command wins; with none, the SHELL variable; with neither, an error and no
//! exec.

use vstd::prelude::*;

use crate::errors::Error;

verus! {

/// What the process image is replaced with: the file to execute, the
/// argument vector, and whether the file is searched on PATH (an explicit
/// command is; a login shell is taken as given).
pub struct ResolvedCommand {
    pub file: String,
    pub argv: Vec<String>,
    pub search_path: bool,
}

/// Picks the executable and argument vector: a non-empty `command` is taken
/// as it stands (element 0 the PATH-searched executable); an empty one falls
/// back to the shell, invoked with no extra arguments; no shell means no
/// exec, reported as a missing-SHELL error.
pub fn resolve_command(command: &Vec<String>, shell: &Option<String>) -> (r: Result<
    ResolvedCommand,
    Error,
>)
    ensures
        command@.len() > 0 ==> r is Ok && {
            let rc = r.unwrap();
            &&& rc.file@ == command@[0]@
            &&& rc.argv.deep_view() == command.deep_view()
            &&& rc.search_path
        },
        command@.len() == 0 && shell is Some ==> r is Ok && {
            let rc = r.unwrap();
            &&& rc.file@ == shell.unwrap()@
            &&& rc.argv.deep_view() == seq![shell.unwrap()@]
            &&& !rc.search_path
        },
        r is Err <==> command@.len() == 0 && shell is None,
        r is Err ==> r == Err::<ResolvedCommand, Error>(Error::MissingShell),
{
    if command.len() > 0 {
        let file = command[0].clone();
        let mut argv: Vec<String> = Vec::new();
        let mut i: usize = 0;
        while i < command.len()
            invariant
                i <= command@.len(),
                argv@.len() == i as int,
                forall|j: int| 0 <= j < i ==> argv@[j]@ == #[trigger] command@[j]@,
            decreases command@.len() - i,
        {
            argv.push(command[i].clone());
            i = i + 1;
        }
        assert(argv.deep_view() =~= command.deep_view());
        Ok(ResolvedCommand { file, argv, search_path: true })
    } else {
        match shell {
            Some(s) => {
                let file = s.clone();
                let mut argv: Vec<String> = Vec::new();
                argv.push(s.clone());
                assert(argv.deep_view() =~= seq![s@]);
                Ok(ResolvedCommand { file, argv, search_path: false })
            },
            None => Err(Error::MissingShell),
        }
    }
}

} // verus!
