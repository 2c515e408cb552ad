use vstd::prelude::*;

use crate::text::push_char;

verus! {

/// Width of the column of template names in `Templates::info`.
pub const NAME_COLUMN: usize = 15;

/// Supported templates
#[derive(Clone, Copy, Debug, PartialEq, Eq, Structural)]
pub enum Templates {
    /// Generate hazards documentation for Rust APIs
    Rust,
}

pub open spec fn template_name(t: Templates) -> Seq<char> {
    match t {
        Templates::Rust => "rust"@,
    }
}

pub open spec fn template_description(t: Templates) -> Seq<char> {
    match t {
        Templates::Rust => "Generate hazards documentation for Rust APIs"@,
    }
}

/// `s` followed by spaces up to `width` characters.
pub open spec fn padded(s: Seq<char>, width: nat) -> Seq<char> {
    if s.len() < width {
        s + Seq::new((width - s.len()) as nat, |i: int| ' ')
    } else {
        s
    }
}

/// The line that `Templates::info` gives a template.
pub open spec fn info_line(t: Templates) -> Seq<char> {
    "    "@ + padded(template_name(t), NAME_COLUMN as nat) + " "@ + template_description(t) + "\n"@
}

/// The text of `Templates::info`.
pub open spec fn info_text() -> Seq<char> {
    "Available built-in templates:\n"@ + info_line(Templates::Rust)
}

/// Appends `text` and then spaces up to `width` characters.
fn push_padded(s: &mut String, text: &str, width: usize)
    ensures
        final(s)@ == old(s)@ + padded(text@, width as nat),
{
    let ghost start = s@;
    s.append(text);
    let mut k = text.unicode_len();
    while k < width
        invariant
            text@.len() <= k <= width || (k == text@.len() && k >= width),
            s@ == start + text@ + Seq::new((k - text@.len()) as nat, |i: int| ' '),
        decreases width - k,
    {
        let ghost before = s@;
        push_char(s, ' ');
        proof {
            assert(Seq::new((k + 1 - text@.len()) as nat, |i: int| ' ') =~= Seq::new(
                (k - text@.len()) as nat,
                |i: int| ' ',
            ).push(' '));
            assert(s@ =~= start + text@ + Seq::new((k + 1 - text@.len()) as nat, |i: int| ' '));
        }
        k = k + 1;
    }
    proof {
        if text@.len() < width {
            assert(s@ =~= start + padded(text@, width as nat));
        } else {
            assert(Seq::new((k - text@.len()) as nat, |i: int| ' ') =~= Seq::<char>::empty());
            assert(s@ =~= start + padded(text@, width as nat));
        }
    }
}

impl Templates {
    /// The name under which the template is chosen.
    pub fn name(&self) -> (r: &'static str)
        ensures
            r@ == template_name(*self),
    {
        match self {
            Templates::Rust => "rust",
        }
    }

    /// What the template generates.
    pub fn description(&self) -> (r: &'static str)
        ensures
            r@ == template_description(*self),
    {
        match self {
            Templates::Rust => "Generate hazards documentation for Rust APIs",
        }
    }

    /// Every template, in order.
    pub fn variants() -> (r: Vec<Templates>)
        ensures
            r@ == seq![Templates::Rust],
    {
        let mut v: Vec<Templates> = Vec::new();
        v.push(Templates::Rust);
        proof {
            assert(v@ =~= seq![Templates::Rust]);
        }
        v
    }

    /// The list of built-in templates, one line each: the name, padded to
    /// its column, then the description.
    pub fn info() -> (r: String)
        ensures
            r@ == info_text(),
    {
        let mut info = String::from_str("Available built-in templates:\n");
        let t = Templates::Rust;
        info.append("    ");
        push_padded(&mut info, t.name(), NAME_COLUMN);
        info.append(" ");
        info.append(t.description());
        info.append("\n");
        proof {
            assert(info@ =~= info_text());
        }
        info
    }
}

/// Where the generated files go, relative to the output directory: each
/// path is given by its components.
#[derive(Debug)]
pub struct ProjectStructure {
    /// Each file with the name of the template that fills it.
    pub files: Vec<(Vec<String>, String)>,
    /// The directories to create.
    pub dirs: Vec<Vec<String>>,
}

/// The Rust toolchain of the generator.
#[derive(Clone, Copy, Debug, PartialEq, Eq, Structural)]
pub struct Rust;

impl Rust {
    pub fn create() -> (r: Rust)
        ensures
            r == Rust,
    {
        Rust
    }

    /// The generated project: `src/ontology.rs`, filled by the `rs.api`
    /// template, in the directory `src`.
    pub fn project_structure() -> (r: ProjectStructure)
        ensures
            r.dirs@.len() == 1,
            r.dirs@[0]@.len() == 1,
            r.dirs@[0]@[0]@ == "src"@,
            r.files@.len() == 1,
            r.files@[0].0@.len() == 2,
            r.files@[0].0@[0]@ == "src"@,
            r.files@[0].0@[1]@ == "ontology.rs"@,
            r.files@[0].1@ == "rs.api"@,
    {
        let mut dir: Vec<String> = Vec::new();
        dir.push(String::from_str("src"));
        let mut dirs: Vec<Vec<String>> = Vec::new();
        dirs.push(dir);
        let mut file: Vec<String> = Vec::new();
        file.push(String::from_str("src"));
        file.push(String::from_str("ontology.rs"));
        let mut files: Vec<(Vec<String>, String)> = Vec::new();
        files.push((file, String::from_str("rs.api")));
        ProjectStructure { files, dirs }
    }
}

/// `s` with every `-` replaced by `_`.
pub open spec fn underscored(s: Seq<char>) -> Seq<char> {
    s.map_values(|c: char| if c == '-' { '_' } else { c })
}

/// Replaces every hyphen by an underscore.
pub fn hypens_to_underscores(value: &str) -> (r: String)
    ensures
        r@ == underscored(value@),
{
    let n = value.unicode_len();
    let mut out = String::new();
    let mut i: usize = 0;
    while i < n
        invariant
            n == value@.len(),
            i <= n,
            out@ == underscored(value@.subrange(0, i as int)),
        decreases n - i,
    {
        let c = value.get_char(i);
        if c == '-' {
            push_char(&mut out, '_');
        } else {
            push_char(&mut out, c);
        }
        proof {
            assert(underscored(value@.subrange(0, i + 1)) =~= underscored(
                value@.subrange(0, i as int),
            ).push(if c == '-' {
                '_'
            } else {
                c
            }));
        }
        i = i + 1;
    }
    proof {
        assert(value@.subrange(0, n as int) =~= value@);
    }
    out
}

} // verus!
