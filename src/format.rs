//! The two text formats of a configuration file, chosen by the file's extension,
//! and how a rendered configuration is laid out with its documentation.

use vstd::prelude::*;
use crate::text::{joined, same_text};
use crate::types::Error;
use crate::docs::regex_replace_all;

verus! {

/// Supported config file formats.
#[derive(Clone, Copy, Debug, PartialEq, Eq, Structural)]
pub enum SerdeFormat {
    Ron,
    Yaml,
}

/// The format that a file extension (dot included) stands for.
pub open spec fn format_for_extension(ext: Seq<char>) -> Option<SerdeFormat> {
    if ext == ".ron"@ {
        Some(SerdeFormat::Ron)
    } else if ext == ".yaml"@ || ext == ".yml"@ {
        Some(SerdeFormat::Yaml)
    } else {
        None
    }
}

/// The message given for an extension that names no supported format.
pub open spec fn unsupported_extension_message(ext: Seq<char>) -> Seq<char> {
    "`cli-config`: Unsupported config file extension: '"@ + ext
        + "'. Supported extensions are '.ron', '.yaml' and '.yml'"@
}

/// The banner line that opens the documentation block of a RON file.
pub open spec fn ron_banner() -> Seq<char> {
    "///////////////////////////// DOCS //////////////////////////////\n"@
}

/// The banner line that opens the documentation block of a YAML file.
pub open spec fn yaml_banner() -> Seq<char> {
    "############################# DOCS ##############################\n"@
}

/// `s` with `"# "` after each line break.
pub open spec fn breaks_commented(s: Seq<char>) -> Seq<char>
    decreases s.len(),
{
    if s.len() == 0 {
        Seq::empty()
    } else {
        let head = if s[0] == '\n' {
            "\n# "@
        } else {
            seq![s[0]]
        };
        head + breaks_commented(s.drop_first())
    }
}

/// `s` with every line, the first and one after a final line break included,
/// starting with `"# "`.
pub open spec fn commented_lines(s: Seq<char>) -> Seq<char> {
    "# "@ + breaks_commented(s)
}

/// A rendered RON configuration followed by its documentation, in one block comment.
pub open spec fn ron_documented(body: Seq<char>, docs: Seq<char>) -> Seq<char> {
    if docs.len() == 0 {
        body
    } else {
        body + "\n\n/*\n"@ + ron_banner() + docs + "\n*/\n"@
    }
}

/// A rendered YAML configuration followed by its documentation, each line a comment.
pub open spec fn yaml_documented(body: Seq<char>, docs: Seq<char>) -> Seq<char> {
    if docs.len() == 0 {
        body
    } else {
        body + "\n"@ + yaml_banner() + commented_lines(docs)
    }
}

/// A rendered configuration of `format` followed by its documentation.
pub open spec fn documented(format: SerdeFormat, body: Seq<char>, docs: Seq<char>) -> Seq<char> {
    match format {
        SerdeFormat::Ron => ron_documented(body, docs),
        SerdeFormat::Yaml => yaml_documented(body, docs),
    }
}

/// Every line break in `t` is followed by a `#`: each line after the first is a comment.
pub open spec fn later_lines_commented(t: Seq<char>) -> bool {
    forall|i: int|
        0 <= i < t.len() && #[trigger] t[i] == '\n' ==> i + 1 < t.len() && t[i + 1] == '#'
}

proof fn lemma_breaks_commented(s: Seq<char>)
    ensures
        later_lines_commented(breaks_commented(s)),
    decreases s.len(),
{
    if s.len() > 0 {
        lemma_breaks_commented(s.drop_first());
        reveal_strlit("\n# ");
        let head = if s[0] == '\n' {
            "\n# "@
        } else {
            seq![s[0]]
        };
        let rest = breaks_commented(s.drop_first());
        let t = head + rest;
        assert(breaks_commented(s) == t);
        assert forall|i: int| 0 <= i < t.len() && #[trigger] t[i] == '\n' implies i + 1 < t.len()
            && t[i + 1] == '#' by {
            if i >= head.len() {
                assert(t[i] == rest[i - head.len()]);
                assert(t[i + 1] == rest[i + 1 - head.len()]);
            } else if s[0] != '\n' {
                assert(t[i] == s[0]);
            } else {
                assert(i == 0);
            }
        }
    }
}

/// Laying out a rendered configuration keeps the rendered text whole at the front
/// and adds nothing when there is no documentation. In YAML all that is added is
/// comments: the banner and every documentation line start with `#`.
pub proof fn lemma_documented_keeps_rendered(format: SerdeFormat, body: Seq<char>, docs: Seq<char>)
    ensures
        documented(format, body, docs).take(body.len() as int) == body,
        docs.len() == 0 ==> documented(format, body, docs) == body,
        format == SerdeFormat::Yaml && docs.len() > 0 ==> ({
            let added = documented(format, body, docs).skip(body.len() + 1int);
            added[0] == '#' && later_lines_commented(added)
        }),
{
    let t = documented(format, body, docs);
    assert(t.take(body.len() as int) =~= body);
    if format == SerdeFormat::Yaml && docs.len() > 0 {
        reveal_strlit("\n");
        reveal_strlit("# ");
        reveal_strlit("############################# DOCS ##############################\n");
        let banner = yaml_banner();
        let c = commented_lines(docs);
        let b = breaks_commented(docs);
        lemma_breaks_commented(docs);
        let added = t.skip(body.len() + 1int);
        assert(added =~= banner + c);
        assert(c =~= "# "@ + b);
        assert forall|i: int| 0 <= i < added.len() && #[trigger] added[i] == '\n' implies i + 1
            < added.len() && added[i + 1] == '#' by {
            if i < banner.len() {
                assert(i == banner.len() - 1);
                assert(added[i + 1] == c[0]);
            } else if i < banner.len() + 2 {
                assert(added[i] == c[i - banner.len()]);
            } else {
                assert(added[i] == b[i - banner.len() - 2]);
                assert(added[i + 1] == b[i + 1 - banner.len() - 2]);
            }
        }
    }
}

/// The text layout of a configuration file format.
pub trait ConfigSerde {
    /// The format whose layout this is.
    spec fn spec_format(&self) -> SerdeFormat;

    /// `rendered`, a configuration as the format's serializer wrote it, followed by
    /// `tail_comment` as a comment block of the format when it is not empty.
    fn serialize_config(&self, rendered: String, tail_comment: &str) -> (r: String)
        ensures
            r@ == documented(self.spec_format(), rendered@, tail_comment@),
    ;
}

/// The RON layout.
pub struct RonSerde {}

/// The YAML layout.
pub struct YamlSerde {}

/// Automatically selects between [RonSerde] and [YamlSerde].
pub struct AutomaticSerde {
    format: SerdeFormat,
    ron_serde: RonSerde,
    yaml_serde: YamlSerde,
}

impl ConfigSerde for RonSerde {
    open spec fn spec_format(&self) -> SerdeFormat {
        SerdeFormat::Ron
    }

    fn serialize_config(&self, rendered: String, tail_comment: &str) -> (r: String) {
        let mut txt_config = rendered;
        if tail_comment.unicode_len() > 0 {
            txt_config.append("\n\n/*\n");
            txt_config.append("///////////////////////////// DOCS //////////////////////////////\n");
            txt_config.append(tail_comment);
            txt_config.append("\n*/\n");
        }
        txt_config
    }
}

impl ConfigSerde for YamlSerde {
    open spec fn spec_format(&self) -> SerdeFormat {
        SerdeFormat::Yaml
    }

    fn serialize_config(&self, rendered: String, tail_comment: &str) -> (r: String) {
        let mut txt_config = rendered;
        if tail_comment.unicode_len() > 0 {
            let commented = regex_replace_all("(?m)^", tail_comment, "# ");
            txt_config.append("\n");
            txt_config.append("############################# DOCS ##############################\n");
            txt_config.append(commented.as_str());
        }
        txt_config
    }
}

impl AutomaticSerde {
    /// The format this serde works with.
    pub closed spec fn spec_format(&self) -> SerdeFormat {
        self.format
    }

    pub fn new(format: SerdeFormat) -> (r: Self)
        ensures
            r.spec_format() == format,
    {
        AutomaticSerde { format, ron_serde: RonSerde {}, yaml_serde: YamlSerde {} }
    }

    /// The format this serde works with.
    pub fn format(&self) -> (r: SerdeFormat)
        ensures
            r == self.spec_format(),
    {
        self.format
    }

    /// The serde for a file extension, dot included: `.ron` for RON, `.yaml` and
    /// `.yml` for YAML. Any other extension is an unsupported format.
    pub fn for_file_extension(file_extension: &str) -> (r: Result<Self, Error>)
        ensures
            match format_for_extension(file_extension@) {
                Some(f) => r matches Ok(s) && s.spec_format() == f,
                None => r matches Err(Error::UnsupportedConfigFileFormat { message })
                    && message@ == unsupported_extension_message(file_extension@),
            },
    {
        if same_text(file_extension, ".ron") {
            Ok(Self::new(SerdeFormat::Ron))
        } else if same_text(file_extension, ".yaml") || same_text(file_extension, ".yml") {
            Ok(Self::new(SerdeFormat::Yaml))
        } else {
            let head = joined("`cli-config`: Unsupported config file extension: '", file_extension);
            let message = joined(
                head.as_str(),
                "'. Supported extensions are '.ron', '.yaml' and '.yml'",
            );
            Err(Error::UnsupportedConfigFileFormat { message })
        }
    }
}

impl ConfigSerde for AutomaticSerde {
    open spec fn spec_format(&self) -> SerdeFormat {
        AutomaticSerde::spec_format(self)
    }

    fn serialize_config(&self, rendered: String, tail_comment: &str) -> (r: String) {
        match self.format {
            SerdeFormat::Ron => self.ron_serde.serialize_config(rendered, tail_comment),
            SerdeFormat::Yaml => self.yaml_serde.serialize_config(rendered, tail_comment),
        }
    }
}

} // verus!
