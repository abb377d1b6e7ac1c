//! Dialogs shown with the `zenity` program: the command lines that show them.

use vstd::prelude::*;
use vstd::string::*;

use crate::vcs::file::spec_texts;

verus! {

/// How the dialogs look.
#[derive(Debug, PartialEq, Eq)]
pub struct Zenity {
    pub icon: String,
    pub width: String,
    pub height: String,
    pub timeout: String,
}

/// A [`Zenity`] as plain values.
pub struct ZenityView {
    pub icon: Seq<char>,
    pub width: Seq<char>,
    pub height: Seq<char>,
    pub timeout: Seq<char>,
}

impl View for Zenity {
    type V = ZenityView;

    open spec fn view(&self) -> ZenityView {
        ZenityView {
            icon: self.icon@,
            width: self.width@,
            height: self.height@,
            timeout: self.timeout@,
        }
    }
}

impl ZenityView {
    /// The arguments every dialog starts with: the look of the window, then
    /// its title.
    pub open spec fn window(&self, title: Seq<char>) -> Seq<Seq<char>> {
        seq![
            "--window-icon"@,
            self.icon,
            "--width"@,
            self.width,
            "--height"@,
            self.height,
            "--timeout"@,
            self.timeout,
            "--title"@,
            title,
        ]
    }
}

impl Zenity {
    /// Dialogs 21 wide and 74 high, with no icon and no timeout.
    pub fn new() -> (r: Zenity)
        ensures
            r@ == (ZenityView {
                icon: Seq::empty(),
                width: "21"@,
                height: "74"@,
                timeout: Seq::empty(),
            }),
    {
        Zenity {
            icon: String::new(),
            width: String::from_str("21"),
            height: String::from_str("74"),
            timeout: String::new(),
        }
    }

    /// The arguments that show a dialog titled `title`, with `args` after
    /// those of the window.
    pub fn execute(&self, args: Vec<String>, title: &str) -> (r: Vec<String>)
        ensures
            spec_texts(r@) == self@.window(title@) + spec_texts(args@),
    {
        let mut r: Vec<String> = Vec::new();
        r.push(String::from_str("--window-icon"));
        r.push(self.icon.clone());
        r.push(String::from_str("--width"));
        r.push(self.width.clone());
        r.push(String::from_str("--height"));
        r.push(self.height.clone());
        r.push(String::from_str("--timeout"));
        r.push(self.timeout.clone());
        r.push(String::from_str("--title"));
        r.push(String::from_str(title));
        assert(spec_texts(r@) =~= self@.window(title@));
        let mut args = args;
        let ghost head = r@;
        let ghost tail = args@;
        r.append(&mut args);
        assert(spec_texts(r@) =~= spec_texts(head) + spec_texts(tail));
        r
    }

    /// The arguments that ask for a line of text.
    pub fn show_input(&self, input: &str) -> (r: Vec<String>)
        ensures
            spec_texts(r@) == self@.window(input@) + seq!["--entry"@, "--text"@, input@],
    {
        let mut args: Vec<String> = Vec::new();
        args.push(String::from_str("--entry"));
        args.push(String::from_str("--text"));
        args.push(String::from_str(input));
        assert(spec_texts(args@) =~= seq!["--entry"@, "--text"@, input@]);
        self.execute(args, input)
    }

    /// The arguments that show a message.
    pub fn show_message(&self, message: &str) -> (r: Vec<String>)
        ensures
            spec_texts(r@) == self@.window(message@) + seq!["--info"@, "--text"@, message@],
    {
        let mut args: Vec<String> = Vec::new();
        args.push(String::from_str("--info"));
        args.push(String::from_str("--text"));
        args.push(String::from_str(message));
        assert(spec_texts(args@) =~= seq!["--info"@, "--text"@, message@]);
        self.execute(args, message)
    }

    /// The arguments that ask for a password.
    pub fn show_password(&self, password: &str) -> (r: Vec<String>)
        ensures
            spec_texts(r@) == self@.window(password@) + seq!["--password"@],
    {
        let mut args: Vec<String> = Vec::new();
        args.push(String::from_str("--password"));
        assert(spec_texts(args@) =~= seq!["--password"@]);
        self.execute(args, password)
    }

    /// The arguments that ask a question.
    pub fn show_question(&self, question: &str) -> (r: Vec<String>)
        ensures
            spec_texts(r@) == self@.window(question@) + seq!["--question"@, "--text"@, question@],
    {
        let mut args: Vec<String> = Vec::new();
        args.push(String::from_str("--question"));
        args.push(String::from_str("--text"));
        args.push(String::from_str(question));
        assert(spec_texts(args@) =~= seq!["--question"@, "--text"@, question@]);
        self.execute(args, question)
    }
}

} // verus!
