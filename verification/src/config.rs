//! The host's settings document: which registration target (website) is
//! active — and thereby which plugin — and the account-generation options
//! the panels edit. Persistence of this document is the host shell's
//! business; the library holds the data model and its documented defaults.

use vstd::prelude::*;

verus! {

/// The registration target a plugin implements the UI for.
#[derive(Clone, Debug, PartialEq)]
pub enum Website {
    VK,
    Instagram,
    Twitter,
    Other(String),
}

/// How an account is registered.
#[derive(Clone, Copy, Debug, PartialEq, Eq, Structural)]
pub enum RegMethod {
    Phone,
    Email,
}

/// The proxy list to route registrations through, if any.
#[derive(Debug, Clone, PartialEq)]
pub enum Proxy {
    Unset,
    File(String),
}

/// Where passwords come from.
#[derive(Clone, Copy, Debug, PartialEq, Eq, Structural)]
pub enum PasswordType {
    Generate,
    FromFile,
}

/// The password list file, if any.
#[derive(Debug, Clone, PartialEq)]
pub enum PasswordFile {
    Unset,
    File(String),
}

/// The status-text file, if any.
#[derive(Debug, Clone, PartialEq)]
pub enum StatusFile {
    Unset,
    File(String),
}

/// The subscription list file, if any.
#[derive(Debug, Clone, PartialEq)]
pub enum SubscribeFile {
    Unset,
    File(String),
}

/// The posts file, if any.
#[derive(Debug, Clone, PartialEq)]
pub enum PostsFile {
    Unset,
    File(String),
}

/// The settings document.
pub struct Config {
    pub website: Website,
    pub proxy_use: bool,
    pub proxy_files: Vec<Proxy>,
    pub proxy_sel: Proxy,
    pub use_custom_pas: bool,
    pub default_pas: String,
    pub pas_type: PasswordType,
    pub pas_len: u16,
    pub pas_letters: bool,
    pub pas_nums: bool,
    pub pas_files: Vec<PasswordFile>,
    pub pas_file: PasswordFile,
    pub acc_photo: bool,
    pub acc_status_files: Vec<StatusFile>,
    pub acc_status_file: StatusFile,
    pub acc_sub_files: Vec<SubscribeFile>,
    pub acc_sub_file: SubscribeFile,
    pub acc_posts_files: Vec<PostsFile>,
    pub acc_posts_file: PostsFile,
    pub reg_method: RegMethod,
    pub reg_num: u32,
}

impl Default for Config {
    /// The document a first run starts from.
    fn default() -> (c: Config)
        ensures
            c.website == Website::VK,
            !c.proxy_use,
            c.proxy_files@ == seq![Proxy::Unset],
            c.proxy_sel == Proxy::Unset,
            !c.use_custom_pas,
            c.default_pas@ == "Abcd5678"@,
            c.pas_type == PasswordType::Generate,
            c.pas_len == 8,
            c.pas_letters,
            c.pas_nums,
            c.pas_files@ == seq![PasswordFile::Unset],
            c.pas_file == PasswordFile::Unset,
            !c.acc_photo,
            c.acc_status_files@ == seq![StatusFile::Unset],
            c.acc_status_file == StatusFile::Unset,
            c.acc_sub_files@ == seq![SubscribeFile::Unset],
            c.acc_sub_file == SubscribeFile::Unset,
            c.acc_posts_files@ == seq![PostsFile::Unset],
            c.acc_posts_file == PostsFile::Unset,
            c.reg_method == RegMethod::Phone,
            c.reg_num == 10,
    {
        Config {
            website: Website::VK,
            proxy_use: false,
            proxy_files: vec![Proxy::Unset],
            proxy_sel: Proxy::Unset,
            use_custom_pas: false,
            default_pas: "Abcd5678".to_owned(),
            pas_type: PasswordType::Generate,
            pas_len: 8,
            pas_letters: true,
            pas_nums: true,
            pas_files: vec![PasswordFile::Unset],
            pas_file: PasswordFile::Unset,
            acc_photo: false,
            acc_status_files: vec![StatusFile::Unset],
            acc_status_file: StatusFile::Unset,
            acc_sub_files: vec![SubscribeFile::Unset],
            acc_sub_file: SubscribeFile::Unset,
            acc_posts_files: vec![PostsFile::Unset],
            acc_posts_file: PostsFile::Unset,
            reg_method: RegMethod::Phone,
            reg_num: 10,
        }
    }
}

/// One selectable settings file in the open/save dialogs.
#[derive(Debug, Clone, PartialEq)]
pub enum ConfigSelect {
    Unset,
    File(String),
}

/// The state of the settings open/save dialogs the host shell drives.
pub struct ConfigDialog {
    pub files: Vec<ConfigSelect>,
    pub file: ConfigSelect,
    pub open: bool,
    pub close_open: bool,
    pub save: bool,
    pub close_save: bool,
    pub save_name: String,
}

impl Default for ConfigDialog {
    /// Both dialogs closed, one unselected entry.
    fn default() -> (d: ConfigDialog)
        ensures
            d.files@ == seq![ConfigSelect::Unset],
            d.file == ConfigSelect::Unset,
            !d.open,
            !d.close_open,
            !d.save,
            !d.close_save,
            d.save_name@ == Seq::<char>::empty(),
    {
        ConfigDialog {
            files: vec![ConfigSelect::Unset],
            file: ConfigSelect::Unset,
            open: false,
            close_open: false,
            save: false,
            close_save: false,
            save_name: String::new(),
        }
    }
}

} // verus!
