//! Runtime configuration as plain values, with its defaults and the merge
//! that fills the fields a configuration file may omit.
//!
//! Reading, deserializing and persisting the configuration file are the
//! application's business; the library owns the shape of the configuration,
//! its default values, and the rendering of the note template.

use vstd::prelude::*;
use vstd::string::*;

verus! {

/// User-scoped settings: the editor to spawn and the notes home directory.
pub struct UserConfig {
    /// The editor command, if configured.
    pub editor: Option<String>,
    /// The notes home directory.
    pub home_dir: String,
}

/// The note template: one top-level section per header.
pub struct Template {
    /// The top-level headers rendered into a fresh note file.
    pub root_headers: Vec<String>,
}

/// The whole runtime configuration.
pub struct Config {
    pub user: UserConfig,
    pub template: Template,
}

impl Default for UserConfig {
    /// No editor configured; the home directory is the fixed default.
    fn default() -> (r: Self)
        ensures
            r.editor is None,
            r.home_dir@ == "~/.local/share/baan"@,
    {
        UserConfig { editor: None, home_dir: String::from_str("~/.local/share/baan") }
    }
}

impl Default for Template {
    /// Two default sections.
    fn default() -> (r: Self)
        ensures
            r.root_headers.deep_view() =~= seq!["TODO"@, "NOTES"@],
    {
        let mut hs: Vec<String> = Vec::new();
        hs.push(String::from_str("TODO"));
        hs.push(String::from_str("NOTES"));
        proof {
            assert(hs.deep_view() =~= seq!["TODO"@, "NOTES"@]);
        }
        Template { root_headers: hs }
    }
}

impl Default for Config {
    /// All defaults.
    fn default() -> (r: Self)
        ensures
            r.user.editor is None,
            r.user.home_dir@ == "~/.local/share/baan"@,
            r.template.root_headers.deep_view() =~= seq!["TODO"@, "NOTES"@],
    {
        Config { user: UserConfig::default(), template: Template::default() }
    }
}

impl Config {
    /// Merge what a configuration file supplied with the defaults: every
    /// omitted field falls back to its default value.
    pub fn from_parts(
        editor: Option<String>,
        home_dir: Option<String>,
        headers: Option<Vec<String>>,
    ) -> (c: Config)
        ensures
            c.user.editor == editor,
            home_dir matches Some(h) ==> c.user.home_dir@ == h@,
            home_dir is None ==> c.user.home_dir@ == "~/.local/share/baan"@,
            headers matches Some(hs) ==> c.template.root_headers.deep_view() == hs.deep_view(),
            headers is None ==> c.template.root_headers.deep_view() =~= seq!["TODO"@, "NOTES"@],
    {
        let user = match home_dir {
            Some(h) => UserConfig { editor, home_dir: h },
            None => {
                let d = UserConfig::default();
                UserConfig { editor, home_dir: d.home_dir }
            },
        };
        let template = match headers {
            Some(hs) => Template { root_headers: hs },
            None => Template::default(),
        };
        Config { user, template }
    }
}

/// The bytes of `baan`, the configuration subdirectory name.
pub open spec fn spec_app_dir() -> Seq<u8> {
    seq![98u8, 97u8, 97u8, 110u8]
}

/// The bytes of `.config`, the conventional configuration root under home.
pub open spec fn spec_dot_config() -> Seq<u8> {
    seq![46u8, 99u8, 111u8, 110u8, 102u8, 105u8, 103u8]
}

/// Where the configuration file lives: under the dedicated configuration
/// root when the environment names one, else under `.config` in the home
/// directory; with neither available the home directory is undiscoverable.
pub fn config_dir(xdg_config_home: Option<Vec<u8>>, home: Option<Vec<u8>>) -> (r: Result<
    Vec<u8>,
    crate::errors::NoteError,
>)
    ensures
        xdg_config_home matches Some(x) ==> (r matches Ok(p) && p@ == crate::bytestr::spec_join(
            x@,
            spec_app_dir(),
        )),
        xdg_config_home is None ==> (home matches Some(h) ==> (r matches Ok(p) && p@
            == crate::bytestr::spec_join(
            crate::bytestr::spec_join(h@, spec_dot_config()),
            spec_app_dir(),
        ))),
        xdg_config_home is None && home is None ==> r == Err::<Vec<u8>, crate::errors::NoteError>(
            crate::errors::NoteError::HomeDirectoryMissing,
        ),
{
    let app: Vec<u8> = vec![98, 97, 97, 110];
    proof {
        assert(app@ =~= spec_app_dir());
    }
    match xdg_config_home {
        Some(x) => Ok(crate::bytestr::join_path(&x, &app)),
        None => match home {
            Some(h) => {
                let dot: Vec<u8> = vec![46, 99, 111, 110, 102, 105, 103];
                proof {
                    assert(dot@ =~= spec_dot_config());
                }
                let base = crate::bytestr::join_path(&h, &dot);
                Ok(crate::bytestr::join_path(&base, &app))
            },
            None => Err(crate::errors::NoteError::HomeDirectoryMissing),
        },
    }
}

/// One rendered section: the heading line, a rule, and blank space to write.
pub open spec fn spec_header_block(h: Seq<char>) -> Seq<char> {
    "# "@ + h + "\n---\n"@ + "\n\n\n\n"@
}

/// The whole rendered template: the sections in header order.
pub open spec fn spec_render(headers: Seq<Seq<char>>) -> Seq<char>
    decreases headers.len(),
{
    if headers.len() == 0 {
        Seq::empty()
    } else {
        spec_render(headers.drop_last()) + spec_header_block(headers.last())
    }
}

/// Render the note template: one `# <header>` section per configured header,
/// each followed by a rule and blank lines.
pub fn render_template(tmpl: Template) -> (r: String)
    ensures
        r@ == spec_render(tmpl.root_headers.deep_view()),
{
    let mut buf = String::new();
    let n = tmpl.root_headers.len();
    let mut i: usize = 0;
    proof {
        assert(tmpl.root_headers.deep_view().take(0) =~= Seq::<Seq<char>>::empty());
    }
    while i < n
        invariant
            i <= n,
            n == tmpl.root_headers@.len(),
            buf@ == spec_render(tmpl.root_headers.deep_view().take(i as int)),
        decreases n - i,
    {
        buf.append("# ");
        buf.append(tmpl.root_headers[i].as_str());
        buf.append("\n---\n");
        buf.append("\n\n\n\n");
        proof {
            let dv = tmpl.root_headers.deep_view();
            assert(dv.take(i + 1 as int).drop_last() =~= dv.take(i as int));
            assert(dv.take(i + 1 as int).last() == dv[i as int]);
            assert(dv[i as int] == tmpl.root_headers@[i as int]@);
        }
        i = i + 1;
    }
    proof {
        assert(tmpl.root_headers.deep_view().take(n as int) =~= tmpl.root_headers.deep_view());
    }
    buf
}

} // verus!
