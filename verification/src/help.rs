use vstd::prelude::*;

verus! {

/// The list of controls at the head of the help window, one line each,
/// followed by an empty line.
pub open spec fn controls_text() -> Seq<char> {
    "Controls:\n"@ + " - H: Open this help window\n"@ + " - Q: Quit the application\n"@
        + " - D: Toggle debug mode\n"@ + " - P: Pause/unpause rotation\n"@
        + " - W: Toggle wireframe mode\n"@ + " - R: Reset cube\n"@
        + " - Mouse Left Drag: Rotate cube\n"@ + " - Mouse Right Drag: Translate cube\n"@
        + " - Mouse Wheel: Zoom in/out\n"@ + "\n"@
}

/// The help window's text: the controls, the authors when there are any,
/// and the version.
pub open spec fn spec_help_text(authors: Seq<char>, version: Seq<char>) -> Seq<char> {
    controls_text() + (if authors.len() == 0 {
        Seq::empty()
    } else {
        "Author(s): "@ + authors + "\n"@
    }) + "Version: "@ + version + "\n"@
}

/// The help text holds the authors line, with the authors verbatim, exactly
/// when there are authors; it always ends with the version line.
pub proof fn lemma_help_text_shape(authors: Seq<char>, version: Seq<char>)
    ensures
        authors.len() > 0 ==> spec_help_text(authors, version) == controls_text() + "Author(s): "@
            + authors + "\n"@ + "Version: "@ + version + "\n"@,
        authors.len() == 0 ==> spec_help_text(authors, version) == controls_text() + "Version: "@
            + version + "\n"@,
{
    if authors.len() > 0 {
        assert(spec_help_text(authors, version) =~= controls_text() + "Author(s): "@ + authors
            + "\n"@ + "Version: "@ + version + "\n"@);
    } else {
        assert(spec_help_text(authors, version) =~= controls_text() + "Version: "@ + version
            + "\n"@);
    }
}

/// Builds the help window's text from the program's authors and version.
pub fn help_text(authors: &str, version: &str) -> (text: String)
    ensures
        text@ == spec_help_text(authors@, version@),
        authors@.len() > 0 ==> text@ == controls_text() + "Author(s): "@ + authors@ + "\n"@
            + "Version: "@ + version@ + "\n"@,
        authors@.len() == 0 ==> text@ == controls_text() + "Version: "@ + version@ + "\n"@,
{
    proof {
        lemma_help_text_shape(authors@, version@);
    }
    let mut text = String::new();
    text.append("Controls:\n");
    text.append(" - H: Open this help window\n");
    text.append(" - Q: Quit the application\n");
    text.append(" - D: Toggle debug mode\n");
    text.append(" - P: Pause/unpause rotation\n");
    text.append(" - W: Toggle wireframe mode\n");
    text.append(" - R: Reset cube\n");
    text.append(" - Mouse Left Drag: Rotate cube\n");
    text.append(" - Mouse Right Drag: Translate cube\n");
    text.append(" - Mouse Wheel: Zoom in/out\n");
    text.append("\n");
    let ghost head = text@;
    if !authors.is_empty() {
        text.append("Author(s): ");
        text.append(authors);
        text.append("\n");
    }
    let ghost with_authors = text@;
    text.append("Version: ");
    text.append(version);
    text.append("\n");
    proof {
        assert(head =~= controls_text());
        if authors@.len() == 0 {
            assert(with_authors =~= controls_text() + Seq::<char>::empty());
        } else {
            assert(with_authors =~= controls_text() + ("Author(s): "@ + authors@ + "\n"@));
        }
        assert(text@ =~= spec_help_text(authors@, version@));
    }
    text
}

/// The help window's title for a program name.
pub fn about_title(name: &str) -> (title: String)
    ensures
        title@ == "About "@ + name@,
{
    let mut title = String::new();
    title.append("About ");
    title.append(name);
    proof {
        assert(title@ =~= "About "@ + name@);
    }
    title
}

/// The first line of the debug overlay: the program's name and version,
/// separated by a space.
pub fn banner(name: &str, version: &str) -> (line: String)
    ensures
        line@ == name@ + " "@ + version@,
{
    let mut line = String::new();
    line.append(name);
    line.append(" ");
    line.append(version);
    proof {
        assert(line@ =~= name@ + " "@ + version@);
    }
    line
}

} // verus!
