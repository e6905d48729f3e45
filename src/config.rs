use vstd::prelude::*;
use vstd::string::StringExecFns;

use crate::json::{bool_literal, json_bool, json_quote, json_string};

verus! {

/// Site metadata that the viewer puts into the page's meta tags.
#[derive(Debug, Clone)]
pub struct MetaInfo {
    pub title: String,
    pub description: String,
    pub og_description: String,
    pub og_title: String,
    pub og_image: String,
    pub twitter_card: String,
}

/// The characters of each field of a [`MetaInfo`].
pub struct MetaInfoView {
    pub title: Seq<char>,
    pub description: Seq<char>,
    pub og_description: Seq<char>,
    pub og_title: Seq<char>,
    pub og_image: Seq<char>,
    pub twitter_card: Seq<char>,
}

impl View for MetaInfo {
    type V = MetaInfoView;

    open spec fn view(&self) -> MetaInfoView {
        MetaInfoView {
            title: self.title@,
            description: self.description@,
            og_description: self.og_description@,
            og_title: self.og_title@,
            og_image: self.og_image@,
            twitter_card: self.twitter_card@,
        }
    }
}

/// Display options of the viewer.
#[derive(Debug, Clone)]
pub struct Config {
    pub theme: String,
    pub is_editable: bool,
    pub hide_models: bool,
    pub hide_client_button: bool,
    pub hidden_clients: bool,
    pub default_open_all_tags: bool,
    pub show_sidebar: bool,
    pub meta_data: Option<MetaInfo>,
}

/// The value of each field of a [`Config`].
pub struct ConfigView {
    pub theme: Seq<char>,
    pub is_editable: bool,
    pub hide_models: bool,
    pub hide_client_button: bool,
    pub hidden_clients: bool,
    pub default_open_all_tags: bool,
    pub show_sidebar: bool,
    pub meta_data: Option<MetaInfoView>,
}

impl View for Config {
    type V = ConfigView;

    open spec fn view(&self) -> ConfigView {
        ConfigView {
            theme: self.theme@,
            is_editable: self.is_editable,
            hide_models: self.hide_models,
            hide_client_button: self.hide_client_button,
            hidden_clients: self.hidden_clients,
            default_open_all_tags: self.default_open_all_tags,
            show_sidebar: self.show_sidebar,
            meta_data: match self.meta_data {
                Some(m) => Some(m@),
                None => None,
            },
        }
    }
}

/// Metadata with every field empty.
pub open spec fn default_meta_info() -> MetaInfoView {
    MetaInfoView {
        title: Seq::empty(),
        description: Seq::empty(),
        og_description: Seq::empty(),
        og_title: Seq::empty(),
        og_image: Seq::empty(),
        twitter_card: Seq::empty(),
    }
}

/// The default options: theme `saturn`, not editable, models shown, client
/// button and clients hidden, tags closed, sidebar shown, no metadata.
pub open spec fn default_config() -> ConfigView {
    ConfigView {
        theme: "saturn"@,
        is_editable: false,
        hide_models: false,
        hide_client_button: true,
        hidden_clients: true,
        default_open_all_tags: false,
        show_sidebar: true,
        meta_data: None,
    }
}

/// The JSON object of the metadata, with camelCase keys in field order.
pub open spec fn meta_info_json(m: MetaInfoView) -> Seq<char> {
    "{\"title\":"@ + json_quote(m.title) + ",\"description\":"@ + json_quote(m.description)
        + ",\"ogDescription\":"@ + json_quote(m.og_description) + ",\"ogTitle\":"@ + json_quote(
        m.og_title,
    ) + ",\"ogImage\":"@ + json_quote(m.og_image) + ",\"twitterCard\":"@ + json_quote(
        m.twitter_card,
    ) + "}"@
}

/// The `metaData` member of the configuration object: absent when unset.
pub open spec fn meta_data_member(m: Option<MetaInfoView>) -> Seq<char> {
    match m {
        Some(m) => ",\"metaData\":"@ + meta_info_json(m),
        None => Seq::empty(),
    }
}

/// The JSON object of the options, with camelCase keys in field order.
pub open spec fn config_json_text(c: ConfigView) -> Seq<char> {
    "{\"theme\":"@ + json_quote(c.theme) + ",\"isEditable\":"@ + json_bool(c.is_editable)
        + ",\"hideModels\":"@ + json_bool(c.hide_models) + ",\"hideClientButton\":"@ + json_bool(
        c.hide_client_button,
    ) + ",\"hideClients\":"@ + json_bool(c.hidden_clients) + ",\"defaultOpenAllTags\":"@
        + json_bool(c.default_open_all_tags) + ",\"showSidebar\":"@ + json_bool(c.show_sidebar)
        + meta_data_member(c.meta_data) + "}"@
}

impl Default for MetaInfo {
    fn default() -> (r: MetaInfo)
        ensures
            r@ == default_meta_info(),
    {
        MetaInfo {
            title: String::new(),
            description: String::new(),
            og_description: String::new(),
            og_title: String::new(),
            og_image: String::new(),
            twitter_card: String::new(),
        }
    }
}

impl MetaInfo {
    pub fn title(self, title: &str) -> (r: MetaInfo)
        ensures
            r@ == (MetaInfoView { title: title@, ..self@ }),
    {
        MetaInfo { title: title.to_owned(), ..self }
    }

    pub fn description(self, description: &str) -> (r: MetaInfo)
        ensures
            r@ == (MetaInfoView { description: description@, ..self@ }),
    {
        MetaInfo { description: description.to_owned(), ..self }
    }

    pub fn og_description(self, og_description: &str) -> (r: MetaInfo)
        ensures
            r@ == (MetaInfoView { og_description: og_description@, ..self@ }),
    {
        MetaInfo { og_description: og_description.to_owned(), ..self }
    }

    pub fn og_title(self, og_title: &str) -> (r: MetaInfo)
        ensures
            r@ == (MetaInfoView { og_title: og_title@, ..self@ }),
    {
        MetaInfo { og_title: og_title.to_owned(), ..self }
    }

    pub fn og_image(self, og_image: &str) -> (r: MetaInfo)
        ensures
            r@ == (MetaInfoView { og_image: og_image@, ..self@ }),
    {
        MetaInfo { og_image: og_image.to_owned(), ..self }
    }

    pub fn twitter_card(self, twitter_card: &str) -> (r: MetaInfo)
        ensures
            r@ == (MetaInfoView { twitter_card: twitter_card@, ..self@ }),
    {
        MetaInfo { twitter_card: twitter_card.to_owned(), ..self }
    }

    /// The metadata as the JSON object that the viewer reads.
    pub fn to_json(&self) -> (r: String)
        ensures
            r@ == meta_info_json(self@),
    {
        let mut out = String::from_str("{\"title\":");
        out.append(json_string(self.title.as_str()).as_str());
        out.append(",\"description\":");
        out.append(json_string(self.description.as_str()).as_str());
        out.append(",\"ogDescription\":");
        out.append(json_string(self.og_description.as_str()).as_str());
        out.append(",\"ogTitle\":");
        out.append(json_string(self.og_title.as_str()).as_str());
        out.append(",\"ogImage\":");
        out.append(json_string(self.og_image.as_str()).as_str());
        out.append(",\"twitterCard\":");
        out.append(json_string(self.twitter_card.as_str()).as_str());
        out.append("}");
        out
    }
}

impl Default for Config {
    fn default() -> (r: Config)
        ensures
            r@ == default_config(),
    {
        Config {
            theme: String::from_str("saturn"),
            is_editable: false,
            hide_models: false,
            hide_client_button: true,
            hidden_clients: true,
            default_open_all_tags: false,
            show_sidebar: true,
            meta_data: None,
        }
    }
}

impl Config {
    pub fn theme(self, theme: &str) -> (r: Config)
        ensures
            r@ == (ConfigView { theme: theme@, ..self@ }),
    {
        Config { theme: theme.to_owned(), ..self }
    }

    pub fn editable(self, is_editable: bool) -> (r: Config)
        ensures
            r@ == (ConfigView { is_editable, ..self@ }),
    {
        Config { is_editable, ..self }
    }

    pub fn hide_models(self, hide_models: bool) -> (r: Config)
        ensures
            r@ == (ConfigView { hide_models, ..self@ }),
    {
        Config { hide_models, ..self }
    }

    pub fn hide_client_button(self, hide_client_button: bool) -> (r: Config)
        ensures
            r@ == (ConfigView { hide_client_button, ..self@ }),
    {
        Config { hide_client_button, ..self }
    }

    pub fn hidden_clients(self, hidden_clients: bool) -> (r: Config)
        ensures
            r@ == (ConfigView { hidden_clients, ..self@ }),
    {
        Config { hidden_clients, ..self }
    }

    pub fn default_open_all_tags(self, default_open_all_tags: bool) -> (r: Config)
        ensures
            r@ == (ConfigView { default_open_all_tags, ..self@ }),
    {
        Config { default_open_all_tags, ..self }
    }

    pub fn show_sidebar(self, show_sidebar: bool) -> (r: Config)
        ensures
            r@ == (ConfigView { show_sidebar, ..self@ }),
    {
        Config { show_sidebar, ..self }
    }

    pub fn meta_data(self, meta_data: MetaInfo) -> (r: Config)
        ensures
            r@ == (ConfigView { meta_data: Some(meta_data@), ..self@ }),
    {
        Config { meta_data: Some(meta_data), ..self }
    }

    /// The options as the JSON object that the viewer reads: every key is
    /// present, but `metaData`, which is left out while unset.
    pub fn to_json(&self) -> (r: String)
        ensures
            r@ == config_json_text(self@),
    {
        let mut out = String::from_str("{\"theme\":");
        out.append(json_string(self.theme.as_str()).as_str());
        out.append(",\"isEditable\":");
        out.append(bool_literal(self.is_editable));
        out.append(",\"hideModels\":");
        out.append(bool_literal(self.hide_models));
        out.append(",\"hideClientButton\":");
        out.append(bool_literal(self.hide_client_button));
        out.append(",\"hideClients\":");
        out.append(bool_literal(self.hidden_clients));
        out.append(",\"defaultOpenAllTags\":");
        out.append(bool_literal(self.default_open_all_tags));
        out.append(",\"showSidebar\":");
        out.append(bool_literal(self.show_sidebar));
        match &self.meta_data {
            Some(m) => {
                out.append(",\"metaData\":");
                out.append(m.to_json().as_str());
            },
            None => {},
        }
        out.append("}");
        out
    }
}

/// The default options serialise to exactly this object: every key but
/// `metaData`, each with its default value.
pub proof fn lemma_default_config_json()
    ensures
        config_json_text(default_config())
            == "{\"theme\":\"saturn\",\"isEditable\":false,\"hideModels\":false,\"hideClientButton\":true,\"hideClients\":true,\"defaultOpenAllTags\":false,\"showSidebar\":true}"@,
{
    reveal_strlit("saturn");
    reveal_strlit("{\"theme\":");
    reveal_strlit(",\"isEditable\":");
    reveal_strlit(",\"hideModels\":");
    reveal_strlit(",\"hideClientButton\":");
    reveal_strlit(",\"hideClients\":");
    reveal_strlit(",\"defaultOpenAllTags\":");
    reveal_strlit(",\"showSidebar\":");
    reveal_strlit("}");
    reveal_strlit(
        "{\"theme\":\"saturn\",\"isEditable\":false,\"hideModels\":false,\"hideClientButton\":true,\"hideClients\":true,\"defaultOpenAllTags\":false,\"showSidebar\":true}",
    );
    let saturn = "saturn"@;
    assert forall|i: int| 0 <= i < saturn.len() implies crate::json::json_plain_char(
        #[trigger] saturn[i],
    ) by {}
    crate::json::lemma_json_escape_plain(saturn);
    assert(config_json_text(default_config())
        =~= "{\"theme\":\"saturn\",\"isEditable\":false,\"hideModels\":false,\"hideClientButton\":true,\"hideClients\":true,\"defaultOpenAllTags\":false,\"showSidebar\":true}"@);
}

} // verus!
