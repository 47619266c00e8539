use vstd::prelude::*;
use vstd::string::*;

verus! {

/// One of the two input-injection utilities, in the order they are tried.
#[derive(Clone, Copy, Debug, PartialEq, Eq, Structural)]
pub enum Tool {
    /// The Wayland-native tool, tried first.
    Wtype,
    /// The uinput-based tool, tried when the first one fails.
    Ydotool,
}

impl Tool {
    /// The executable name of the tool.
    pub open spec fn name_spec(self) -> Seq<char> {
        match self {
            Tool::Wtype => "wtype"@,
            Tool::Ydotool => "ydotool"@,
        }
    }

    /// The executable name of the tool, as looked up on the search path.
    pub fn name(&self) -> (r: &'static str)
        ensures
            r@ == self.name_spec(),
    {
        match self {
            Tool::Wtype => "wtype",
            Tool::Ydotool => "ydotool",
        }
    }
}

/// Appends a copy of `s` to `v`.
fn push_str(v: &mut Vec<String>, s: &str)
    ensures
        final(v).deep_view() == old(v).deep_view().push(s@),
{
    let item = String::from_str(s);
    v.push(item);
    assert(v.deep_view() =~= old(v).deep_view().push(s@));
}


/// Arguments that make the first tool release shift, ctrl, logo, alt and altgr.
pub open spec fn wtype_args_spec() -> Seq<Seq<char>> {
    seq![
        "-m"@, "shift"@,
        "-m"@, "ctrl"@,
        "-m"@, "logo"@,
        "-m"@, "alt"@,
        "-m"@, "altgr"@,
    ]
}

/// Arguments that make the second tool send key-up events (`<code>:0`) for
/// left/right shift (42, 54), ctrl (29, 97), alt (56, 100) and super (125, 126).
pub open spec fn ydotool_args_spec() -> Seq<Seq<char>> {
    seq![
        "key"@,
        "42:0"@, "54:0"@,
        "29:0"@, "97:0"@,
        "56:0"@, "100:0"@,
        "125:0"@, "126:0"@,
    ]
}

impl Tool {
    /// The arguments the tool is run with.
    pub open spec fn args_spec(self) -> Seq<Seq<char>> {
        match self {
            Tool::Wtype => wtype_args_spec(),
            Tool::Ydotool => ydotool_args_spec(),
        }
    }

    /// The arguments that release every modifier with this tool, in order.
    pub fn release_args(&self) -> (r: Vec<String>)
        ensures
            r.deep_view() == self.args_spec(),
    {
        let mut v: Vec<String> = Vec::new();
        match self {
            Tool::Wtype => {
                push_str(&mut v, "-m");
                push_str(&mut v, "shift");
                push_str(&mut v, "-m");
                push_str(&mut v, "ctrl");
                push_str(&mut v, "-m");
                push_str(&mut v, "logo");
                push_str(&mut v, "-m");
                push_str(&mut v, "alt");
                push_str(&mut v, "-m");
                push_str(&mut v, "altgr");
            },
            Tool::Ydotool => {
                push_str(&mut v, "key");
                push_str(&mut v, "42:0");
                push_str(&mut v, "54:0");
                push_str(&mut v, "29:0");
                push_str(&mut v, "97:0");
                push_str(&mut v, "56:0");
                push_str(&mut v, "100:0");
                push_str(&mut v, "125:0");
                push_str(&mut v, "126:0");
            },
        }
        assert(v.deep_view() =~= self.args_spec());
        v
    }
}

} // verus!
