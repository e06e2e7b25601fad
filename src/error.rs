use vstd::prelude::*;

use crate::command::texts;

verus! {

/// std's I/O error, which a failed spawn of the LVM2 binary carries.
#[verifier::external_type_specification]
#[verifier::external_body]
pub struct ExIoError(std::io::Error);

/// An error returned by an LVM operation.
#[derive(Debug)]
pub enum LVMError {
    /// The LVM2 command ran and failed.
    Command { command: String, args: Vec<String>, message: String },
    /// The LVM2 command could not be run.
    Internal { io: std::io::Error },
    /// The output of the LVM2 command could not be understood.
    MalformedOutput { cause: String, result: String },
    /// The requested resource does not exist.
    NotFound { resource: String },
}

/// The text that `{:?}` writes for a list of strings.
pub uninterp spec fn debug_list(items: Seq<Seq<char>>) -> Seq<char>;

/// Relies on the `Debug` format of `Vec<String>`: the text depends on the strings alone.
#[verifier::external_body]
fn debug_strings(items: &Vec<String>) -> (r: String)
    ensures
        r@ == debug_list(texts(items@)),
{
    format!("{:?}", items)
}

impl LVMError {
    /// Describes the error.
    pub fn to_string(&self) -> (r: String)
        ensures
            self matches LVMError::Command { command, args, message } ==> r@
                == "could not run `"@ + command@ + "` with args `"@ + debug_list(texts(args@))
                + "`: "@ + message@,
            self is Internal ==> "could not run lvm command: "@.is_prefix_of(r@),
            self matches LVMError::MalformedOutput { cause, result } ==> r@
                == "output of lvm command is malformed: "@ + cause@ + " -> "@ + result@,
            self matches LVMError::NotFound { resource } ==> r@
                == "requested resource not found: "@ + resource@,
    {
        match self {
            LVMError::Command { command, args, message } => {
                let mut r = String::from_str("could not run `");
                r.append(command.as_str());
                r.append("` with args `");
                r.append(debug_strings(args).as_str());
                r.append("`: ");
                r.append(message.as_str());
                r
            },
            LVMError::Internal { io } => {
                let r = String::from_str("could not run lvm command: ");
                let detail = io.to_string();
                let all = r.concat(detail.as_str());
                assert("could not run lvm command: "@.is_prefix_of(all@)) by {
                    assert(all@.subrange(0, r@.len() as int) =~= r@);
                }
                all
            },
            LVMError::MalformedOutput { cause, result } => {
                let mut r = String::from_str("output of lvm command is malformed: ");
                r.append(cause.as_str());
                r.append(" -> ");
                r.append(result.as_str());
                r
            },
            LVMError::NotFound { resource } => {
                let mut r = String::from_str("requested resource not found: ");
                r.append(resource.as_str());
                r
            },
        }
    }
}

} // verus!
