//! Registration of the `goober-player` URI scheme with the Windows registry,
//! described as a list of steps for the caller to carry out.

use vstd::prelude::*;

verus! {

/// One registry operation. Steps apply to the current key: at first the
/// scheme's own key; after `CreateKey`, the subkey it names (a path below the
/// scheme's key).
#[derive(Debug, Clone, PartialEq, Eq)]
pub enum RegistryStep {
    /// Creates (or opens) the subkey `path` of the scheme's key and makes it
    /// the current key.
    CreateKey { path: String },
    /// Sets the string value `name` (the empty name is the default value) of
    /// the current key to `data`.
    SetValue { name: String, data: String },
}

/// `RegistryStep` with its strings as character sequences.
pub enum RegistryStepView {
    CreateKey { path: Seq<char> },
    SetValue { name: Seq<char>, data: Seq<char> },
}

impl View for RegistryStep {
    type V = RegistryStepView;

    open spec fn view(&self) -> RegistryStepView {
        match self {
            RegistryStep::CreateKey { path } => RegistryStepView::CreateKey { path: path@ },
            RegistryStep::SetValue { name, data } => RegistryStepView::SetValue {
                name: name@,
                data: data@,
            },
        }
    }
}

/// The views of a list of steps.
pub open spec fn steps_view(steps: Seq<RegistryStep>) -> Seq<RegistryStepView> {
    steps.map_values(|s: RegistryStep| s@)
}

/// The URI scheme that the launcher handles.
pub open spec fn uri_scheme() -> Seq<char> {
    "goober-player"@
}

/// The description of the scheme: `URL <scheme> Protocol`.
pub open spec fn scheme_description_text() -> Seq<char> {
    "URL "@ + uri_scheme() + " Protocol"@
}

/// Builds the scheme's name.
pub(crate) fn scheme_name() -> (res: String)
    ensures
        res@ == uri_scheme(),
{
    String::from_str("goober-player")
}

/// Builds the description of the scheme.
pub(crate) fn scheme_description() -> (res: String)
    ensures
        res@ == scheme_description_text(),
{
    let mut res = String::from_str("URL ");
    res.append(scheme_name().as_str());
    res.append(" Protocol");
    res
}

/// The command that Windows runs for a launch URI: the quoted launcher path
/// followed by the quoted URI placeholder, `"<path>" "%1"`.
pub open spec fn open_command_text(launcher_path: Seq<char>) -> Seq<char> {
    "\""@ + launcher_path + "\" \"%1\""@
}

/// Builds the command that Windows runs for a launch URI.
pub fn open_command(launcher_path: &str) -> (res: String)
    ensures
        res@ == open_command_text(launcher_path@),
{
    let mut res = String::from_str("\"");
    res.append(launcher_path);
    res.append("\" \"%1\"");
    res
}

/// The steps that register the scheme: its description and the
/// `URL Protocol` marker on the scheme's key, the open command under
/// `shell\open\command`, and an (empty) `DefaultIcon` key.
pub open spec fn registration_steps(launcher_path: Seq<char>) -> Seq<RegistryStepView> {
    seq![
        RegistryStepView::SetValue { name: ""@, data: scheme_description_text() },
        RegistryStepView::SetValue { name: "URL Protocol"@, data: ""@ },
        RegistryStepView::CreateKey { path: "shell\\open\\command"@ },
        RegistryStepView::SetValue { name: ""@, data: open_command_text(launcher_path) },
        RegistryStepView::CreateKey { path: "DefaultIcon"@ },
    ]
}

/// Lists the registry steps that make `launcher_path` the handler of the
/// scheme, to be carried out on the scheme's key once it is created.
pub fn protocol_registration(launcher_path: &str) -> (res: Vec<RegistryStep>)
    ensures
        steps_view(res@) == registration_steps(launcher_path@),
{
    let mut res: Vec<RegistryStep> = Vec::new();
    res.push(
        RegistryStep::SetValue {
            name: String::from_str(""),
            data: scheme_description(),
        },
    );
    res.push(RegistryStep::SetValue { name: String::from_str("URL Protocol"), data: String::from_str("") });
    res.push(RegistryStep::CreateKey { path: String::from_str("shell\\open\\command") });
    res.push(RegistryStep::SetValue { name: String::from_str(""), data: open_command(launcher_path) });
    res.push(RegistryStep::CreateKey { path: String::from_str("DefaultIcon") });
    assert(steps_view(res@) =~= registration_steps(launcher_path@));
    res
}


/// For every launcher path `p`, the registration makes Windows run the
/// launcher with the URI: the default value of `shell\open\command` is `p` in
/// double quotes, a space, and the placeholder `%1` in double quotes; and the
/// scheme's key carries the `URL Protocol` marker.
pub proof fn lemma_registration_opens_launcher_with_uri(p: Seq<char>)
    ensures
        registration_steps(p).len() == 5,
        registration_steps(p)[2] == (RegistryStepView::CreateKey { path: seq!['s', 'h', 'e', 'l', 'l', '\\', 'o', 'p', 'e', 'n', '\\', 'c', 'o', 'm', 'm', 'a', 'n', 'd'] }),
        registration_steps(p)[3] == (RegistryStepView::SetValue {
            name: Seq::<char>::empty(),
            data: seq!['"'] + p + seq!['"', ' ', '"', '%', '1', '"'],
        }),
        registration_steps(p)[0] == (RegistryStepView::SetValue {
            name: Seq::<char>::empty(),
            data: seq!['U', 'R', 'L', ' ', 'g', 'o', 'o', 'b', 'e', 'r', '-', 'p', 'l', 'a', 'y', 'e', 'r', ' ', 'P', 'r', 'o', 't', 'o', 'c', 'o', 'l'],
        }),
        registration_steps(p)[4] == (RegistryStepView::CreateKey { path: seq!['D', 'e', 'f', 'a', 'u', 'l', 't', 'I', 'c', 'o', 'n'] }),
        registration_steps(p)[1] == (RegistryStepView::SetValue {
            name: seq!['U', 'R', 'L', ' ', 'P', 'r', 'o', 't', 'o', 'c', 'o', 'l'],
            data: Seq::<char>::empty(),
        }),
{
    reveal_strlit("\"");
    reveal_strlit("\" \"%1\"");
    reveal_strlit("");
    reveal_strlit("URL Protocol");
    reveal_strlit("shell\\open\\command");
    reveal_strlit("URL ");
    reveal_strlit(" Protocol");
    reveal_strlit("goober-player");
    reveal_strlit("DefaultIcon");
    assert(seq!['U', 'R', 'L', ' ', 'g', 'o', 'o', 'b', 'e', 'r', '-', 'p', 'l', 'a', 'y', 'e', 'r', ' ', 'P', 'r', 'o', 't', 'o', 'c', 'o', 'l'] =~= scheme_description_text());
    assert(seq!['D', 'e', 'f', 'a', 'u', 'l', 't', 'I', 'c', 'o', 'n'] =~= "DefaultIcon"@);
    assert(seq!['"'] + p + seq!['"', ' ', '"', '%', '1', '"'] =~= open_command_text(p));
    assert(seq!['s', 'h', 'e', 'l', 'l', '\\', 'o', 'p', 'e', 'n', '\\', 'c', 'o', 'm', 'm', 'a', 'n', 'd'] =~= "shell\\open\\command"@);
    assert(seq!['U', 'R', 'L', ' ', 'P', 'r', 'o', 't', 'o', 'c', 'o', 'l'] =~= "URL Protocol"@);
    assert(Seq::<char>::empty() =~= ""@);
}

} // verus!
