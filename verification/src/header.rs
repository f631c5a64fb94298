//! The header of a target block and the title that is computed from it.

use crate::config::{Config, ConfigView};
use crate::error::RewriteError;
use crate::text::{occurs, occurs_at};
use std::collections::BTreeMap;
use vstd::prelude::*;
use vstd::string::StringExecFns;

verus! {

/// `serde_yaml::Error`, the reason why a text could not be read as YAML.
/// Nothing is known of its contents.
#[verifier::external_type_specification]
#[verifier::external_body]
pub struct ExYamlError(serde_yaml::Error);

/// `url::ParseError`, the reason why a text is not a URL. Nothing is known
/// of its contents.
#[verifier::external_type_specification]
#[verifier::external_body]
pub struct ExUrlParseError(url::ParseError);

/// The entries of a YAML mapping read as texts: each key with the text of
/// its value.
pub type Texts = Seq<(Seq<char>, Seq<char>)>;

/// The entries of a YAML mapping read as optional texts: each key with the
/// text of its value, or with nothing where the value is null.
pub type Entries = Seq<(Seq<char>, Option<Seq<char>>)>;

/// What `serde_yaml` reads from a text as a mapping from text keys to text
/// values, the entries in the order of their keys; nothing when the text is
/// no such mapping. A scalar is taken as it is written, so the values `~`,
/// `null` and the empty value are the texts `~`, `null` and the empty text.
///
/// The whole mapping is read, not only the fields of a header. A mapping
/// with a list or a mapping as the value of any key, known or not, is
/// therefore no such mapping; and where a key is repeated the last entry
/// stands, since the read keeps one entry for each key.
pub uninterp spec fn yaml_text_mapping(text: Seq<char>) -> Option<Texts>;

/// What `serde_yaml` reads from a text as a mapping from text keys to
/// optional text values, the entries in the order of their keys; nothing when
/// the text is no such mapping. A plain `~`, `null` or empty value is read as
/// nothing, any other scalar as its text.
///
/// As with `yaml_text_mapping`, the whole mapping is read: a list or a
/// mapping as a value makes the result nothing, and of a repeated key the
/// last entry stands.
pub uninterp spec fn yaml_scalar_mapping(text: Seq<char>) -> Option<Entries>;

/// The serialization of the URL that the `url` crate parses from a text;
/// nothing when the text is not an absolute URL.
pub uninterp spec fn url_serialization(text: Seq<char>) -> Option<Seq<char>>;

/// `serde_yaml::from_str` at the type of a map from `String` to `String`:
/// the result is named by `yaml_text_mapping`, and an error comes exactly
/// when that is nothing.
#[verifier::external_body]
fn read_yaml_texts(text: &str) -> (result: Result<Vec<(String, String)>, serde_yaml::Error>)
    ensures
        match result {
            Ok(entries) => yaml_text_mapping(text@) == Some(entries.deep_view()),
            Err(_) => yaml_text_mapping(text@) is None,
        },
{
    serde_yaml::from_str::<BTreeMap<String, String>>(text).map(
        |mapping| mapping.into_iter().collect(),
    )
}

/// `serde_yaml::from_str` at the type of a map from `String` to
/// `Option<String>`: the result is named by `yaml_scalar_mapping`, and an
/// error comes exactly when that is nothing.
#[verifier::external_body]
fn read_yaml_mapping(text: &str) -> (result: Result<Vec<(String, Option<String>)>, serde_yaml::Error>)
    ensures
        match result {
            Ok(entries) => yaml_scalar_mapping(text@) == Some(entries.deep_view()),
            Err(_) => yaml_scalar_mapping(text@) is None,
        },
{
    serde_yaml::from_str::<BTreeMap<String, Option<String>>>(text).map(
        |mapping| mapping.into_iter().collect(),
    )
}

/// `url::Url::parse`, with the parsed URL handed back as its serialization:
/// the result is named by `url_serialization`, and an error comes exactly
/// when that is nothing.
#[verifier::external_body]
fn parse_url(text: &str) -> (result: Result<String, url::ParseError>)
    ensures
        match result {
            Ok(serialized) => url_serialization(text@) == Some(serialized@),
            Err(_) => url_serialization(text@) is None,
        },
{
    url::Url::parse(text).map(String::from)
}

/// A text is a URL when it is the serialization of some parsed URL.
pub open spec fn is_url(text: Seq<char>) -> bool {
    exists|source: Seq<char>| url_serialization(source) == Some(text)
}

/// The value of the first entry with the given key; nothing when there is
/// no such entry.
pub open spec fn field<V>(entries: Seq<(Seq<char>, V)>, key: Seq<char>) -> Option<V>
    decreases entries.len(),
{
    if entries.len() == 0 {
        None
    } else if entries[0].0 == key {
        Some(entries[0].1)
    } else {
        field(entries.skip(1), key)
    }
}

/// The text of the first entry with the given key; nothing when there is no
/// such entry or its value is null.
pub open spec fn optional_field(entries: Entries, key: Seq<char>) -> Option<Seq<char>> {
    match field(entries, key) {
        Some(Some(text)) => Some(text),
        _ => None,
    }
}

/// A header as plain values.
pub struct HeaderView {
    /// Admonition style keyword.
    pub style: Seq<char>,
    /// Title of the cited work.
    pub title: Seq<char>,
    /// Author of the cited work.
    pub author: Seq<char>,
    /// Serialization of the URL of the cited work.
    pub url: Seq<char>,
    /// Reference to an archived copy, relative to the archive prefix.
    pub archived: Option<Seq<char>>,
}

/// The header that the entries of a mapping describe. `style`, `title`,
/// `author` and `url` are required and taken as texts, whatever scalar
/// stands there; the URL must parse. `archived` is optional, and a null
/// value there means that there is none.
pub open spec fn header_from_entries(texts: Texts, entries: Entries) -> Option<HeaderView> {
    match (
        field(texts, "style"@),
        field(texts, "title"@),
        field(texts, "author"@),
        field(texts, "url"@),
    ) {
        (Some(style), Some(title), Some(author), Some(url)) => match url_serialization(url) {
            Some(serialized) => Some(
                HeaderView {
                    style,
                    title,
                    author,
                    url: serialized,
                    archived: optional_field(entries, "archived"@),
                },
            ),
            None => None,
        },
        _ => None,
    }
}

/// The header that a text describes, if it describes one: the text must be
/// a YAML mapping of scalars that names the required fields with a URL that
/// parses.
pub open spec fn header_of(text: Seq<char>) -> Option<HeaderView> {
    match (yaml_text_mapping(text), yaml_scalar_mapping(text)) {
        (Some(texts), Some(entries)) => header_from_entries(texts, entries),
        _ => None,
    }
}

/// The link to the cited work.
pub open spec fn source_link(header: HeaderView) -> Seq<char> {
    "<a href='"@ + header.url + "'>"@ + header.title + "</a>"@
}

/// The parenthesised link to the archived copy, empty when the header names
/// none.
pub open spec fn archive_link(header: HeaderView, config: ConfigView) -> Seq<char> {
    match header.archived {
        Some(archived) => " (<a href='"@ + config.archives_prefix() + archived
            + "'>archived</a>)"@,
        None => Seq::empty(),
    }
}

/// The citation line: source link, archive link, author.
pub open spec fn citation(header: HeaderView, config: ConfigView) -> Seq<char> {
    source_link(header) + archive_link(header, config) + " by "@ + header.author
}

/// The info string of the admonition block that replaces a target block.
pub open spec fn title_text(header: HeaderView, config: ConfigView) -> Seq<char> {
    "admonish "@ + header.style + " title=\""@ + citation(header, config) + "\""@
}

/// Where a header names an archived copy, the title holds a link labelled
/// `archived` whose target is the archive prefix followed by the reference.
/// Where it names none, the title is made of the style, the source link and
/// the author alone.
pub proof fn lemma_title_archive_link(header: HeaderView, config: ConfigView)
    ensures
        header.archived matches Some(archived) ==> occurs(
            title_text(header, config),
            "<a href='"@ + config.archives_prefix() + archived + "'>archived</a>"@,
        ),
        header.archived is None ==> title_text(header, config) == "admonish "@ + header.style
            + " title=\""@ + source_link(header) + " by "@ + header.author + "\""@,
{
    let title = title_text(header, config);
    match header.archived {
        Some(archived) => {
            let link = "<a href='"@ + config.archives_prefix() + archived + "'>archived</a>"@;
            let before = "admonish "@ + header.style + " title=\""@ + source_link(header) + " ("@;
            let after = ")"@ + " by "@ + header.author + "\""@;
            reveal_strlit(" (<a href='");
            reveal_strlit(" (");
            reveal_strlit("<a href='");
            reveal_strlit("'>archived</a>)");
            reveal_strlit("'>archived</a>");
            reveal_strlit(")");
            assert(" (<a href='"@ =~= " ("@ + "<a href='"@);
            assert("'>archived</a>)"@ =~= "'>archived</a>"@ + ")"@);
            assert(archive_link(header, config) =~= " ("@ + link + ")"@);
            assert(title =~= before + link + after);
            let at = before.len() as int;
            assert(title.subrange(at, at + link.len()) =~= link);
            assert(occurs_at(title, link, at));
        },
        None => {
            assert(title =~= "admonish "@ + header.style + " title=\""@ + source_link(header)
                + " by "@ + header.author + "\""@);
        },
    }
}

/// The header at the top of a target block. Its URL is always the
/// serialization of a parsed URL.
#[derive(Debug)]
pub struct Header {
    style: String,
    title: String,
    author: String,
    url: String,
    archived: Option<String>,
}

impl View for Header {
    type V = HeaderView;

    closed spec fn view(&self) -> HeaderView {
        HeaderView {
            style: self.style@,
            title: self.title@,
            author: self.author@,
            url: self.url@,
            archived: match self.archived {
                Some(archived) => Some(archived@),
                None => None,
            },
        }
    }
}

/// Looks a key up in the entries of a mapping read as texts.
pub fn lookup_text(entries: &Vec<(String, String)>, key: &str) -> (value: Option<String>)
    ensures
        match value {
            Some(text) => field(entries.deep_view(), key@) == Some(text@),
            None => field(entries.deep_view(), key@) is None,
        },
{
    let wanted = String::from_str(key);
    let ghost all = entries.deep_view();
    let mut index: usize = 0;
    assert(all.skip(0) =~= all);
    while index < entries.len()
        invariant
            index <= entries.len(),
            all == entries.deep_view(),
            all.len() == entries.len(),
            wanted@ == key@,
            field(all, key@) == field(all.skip(index as int), key@),
        decreases entries.len() - index,
    {
        let ghost rest = all.skip(index as int);
        assert(rest[0] == all[index as int]);
        assert(rest.skip(1) =~= all.skip(index + 1));
        assert(all[index as int] == entries[index as int].deep_view());
        if entries[index].0 == wanted {
            return Some(entries[index].1.clone());
        }
        index += 1;
    }
    None
}

/// Looks a key up in the entries of a mapping read as optional texts. A
/// null value counts as no value.
pub fn lookup_optional(entries: &Vec<(String, Option<String>)>, key: &str) -> (value: Option<
    String,
>)
    ensures
        match value {
            Some(text) => optional_field(entries.deep_view(), key@) == Some(text@),
            None => optional_field(entries.deep_view(), key@) is None,
        },
{
    let wanted = String::from_str(key);
    let ghost all = entries.deep_view();
    let mut index: usize = 0;
    assert(all.skip(0) =~= all);
    while index < entries.len()
        invariant
            index <= entries.len(),
            all == entries.deep_view(),
            all.len() == entries.len(),
            wanted@ == key@,
            field(all, key@) == field(all.skip(index as int), key@),
        decreases entries.len() - index,
    {
        let ghost rest = all.skip(index as int);
        assert(rest[0] == all[index as int]);
        assert(rest.skip(1) =~= all.skip(index + 1));
        assert(all[index as int] == entries[index as int].deep_view());
        if entries[index].0 == wanted {
            return match &entries[index].1 {
                Some(text) => Some(text.clone()),
                None => None,
            };
        }
        index += 1;
    }
    None
}

impl Header {
    #[verifier::type_invariant]
    spec fn valid(self) -> bool {
        is_url(self.url@)
    }

    /// A header with the given fields. The URL is parsed, and the header
    /// keeps its serialization.
    pub fn new(
        style: String,
        title: String,
        author: String,
        url: &str,
        archived: Option<String>,
    ) -> (result: Result<Header, RewriteError>)
        ensures
            match result {
                Ok(header) => url_serialization(url@) == Some(header@.url) && header@ == (
                HeaderView {
                    style: style@,
                    title: title@,
                    author: author@,
                    url: header@.url,
                    archived: match archived {
                        Some(text) => Some(text@),
                        None => None,
                    },
                }),
                Err(error) => error == RewriteError::MalformedHeader && url_serialization(url@) is None,
            },
    {
        match parse_url(url) {
            Ok(serialized) => Ok(Header { style, title, author, url: serialized, archived }),
            Err(_) => Err(RewriteError::MalformedHeader),
        }
    }

    /// The header that the entries of a mapping describe. `texts` holds
    /// the mapping read as texts, from which the required fields come;
    /// `entries` holds it read as optional texts, from which `archived`
    /// comes.
    pub fn from_entries(
        texts: &Vec<(String, String)>,
        entries: &Vec<(String, Option<String>)>,
    ) -> (result: Result<Header, RewriteError>)
        ensures
            match result {
                Ok(header) => header_from_entries(texts.deep_view(), entries.deep_view())
                    == Some(header@),
                Err(error) => error == RewriteError::MalformedHeader && header_from_entries(
                    texts.deep_view(),
                    entries.deep_view(),
                ) is None,
            },
    {
        let style = lookup_text(texts, "style");
        let title = lookup_text(texts, "title");
        let author = lookup_text(texts, "author");
        let url = lookup_text(texts, "url");
        let archived = lookup_optional(entries, "archived");
        match (style, title, author, url) {
            (Some(style), Some(title), Some(author), Some(url)) => Header::new(
                style,
                title,
                author,
                url.as_str(),
                archived,
            ),
            _ => Err(RewriteError::MalformedHeader),
        }
    }

    /// Reads a header from the text at the top of a target block. The text
    /// must be a YAML mapping with the keys `style`, `title`, `author` and
    /// `url`, each with a scalar value that is taken as text, and may have
    /// the key `archived`, where a null value means none.
    ///
    /// The mapping is read as a whole. A list or a mapping as the value of
    /// any key makes the header malformed, also under a key that the header
    /// does not use; and where a key is repeated, the last entry counts.
    pub fn parse(text: &str) -> (result: Result<Header, RewriteError>)
        ensures
            match result {
                Ok(header) => header_of(text@) == Some(header@),
                Err(error) => error == RewriteError::MalformedHeader && header_of(text@) is None,
            },
    {
        match read_yaml_texts(text) {
            Ok(texts) => match read_yaml_mapping(text) {
                Ok(entries) => Header::from_entries(&texts, &entries),
                Err(_) => Err(RewriteError::MalformedHeader),
            },
            Err(_) => Err(RewriteError::MalformedHeader),
        }
    }

    /// The serialized URL of the cited work.
    pub fn url(&self) -> (url: &str)
        ensures
            url@ == self@.url,
            is_url(url@),
    {
        proof {
            use_type_invariant(self);
        }
        self.url.as_str()
    }

    /// The info string of the admonition block for this header: the style,
    /// then a `title` attribute that links to the source and, where the
    /// header names one, to the archived copy, and ends with the author.
    /// Nothing is escaped. The title depends on the header and the settings
    /// alone: the same header and settings always give the same title.
    pub fn title(&self, config: &Config) -> (text: String)
        ensures
            text@ == title_text(self@, config@),
    {
        let mut line = String::from_str("<a href='");
        line.append(self.url.as_str());
        line.append("'>");
        line.append(self.title.as_str());
        line.append("</a>");
        assert(line@ =~= source_link(self@));
        if let Some(archived) = &self.archived {
            line.append(" (<a href='");
            line.append(config.archives_prefix());
            line.append(archived.as_str());
            line.append("'>archived</a>)");
        }
        assert(line@ =~= source_link(self@) + archive_link(self@, config@));
        line.append(" by ");
        line.append(self.author.as_str());
        assert(line@ =~= citation(self@, config@));
        let mut output = String::from_str("admonish ");
        output.append(self.style.as_str());
        output.append(" title=\"");
        output.append(line.as_str());
        output.append("\"");
        assert(output@ =~= title_text(self@, config@));
        output
    }
}

} // verus!
