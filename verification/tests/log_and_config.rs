//! The structured log buffer and the settings document's defaults.

use flexar::config::Config;
use flexar::config::ConfigDialog;
use flexar::config::ConfigSelect;
use flexar::config::PasswordFile;
use flexar::config::PasswordType;
use flexar::config::PostsFile;
use flexar::config::Proxy;
use flexar::config::RegMethod;
use flexar::config::StatusFile;
use flexar::config::SubscribeFile;
use flexar::config::Website;
use flexar::records::joined_parts;
use flexar::records::LogBuffer;
use flexar::records::LogKind;

#[test]
fn append_keeps_order_and_drain_empties() {
    let mut log = LogBuffer::new();
    assert_eq!(log.len(), 0);
    log.append(LogKind::Print, "first".to_string());
    log.append(LogKind::FrameRenderError, "second".to_string());
    assert_eq!(log.len(), 2);
    assert_eq!(log.record_at(0).kind, LogKind::Print);
    assert_eq!(log.record_at(0).message, "first");
    assert_eq!(log.record_at(1).kind, LogKind::FrameRenderError);
    assert_eq!(log.record_at(1).message, "second");

    let out = log.drain();
    assert_eq!(log.len(), 0);
    assert_eq!(out.len(), 2);
    assert_eq!(out[0].message, "first");
    assert_eq!(out[1].message, "second");
}

#[test]
fn extend_appends_after_existing_records() {
    let mut host = LogBuffer::new();
    host.append(LogKind::Print, "kept".to_string());
    let mut sink = LogBuffer::new();
    sink.append(LogKind::Print, "a".to_string());
    sink.append(LogKind::Print, "b".to_string());

    host.extend_from(sink.drain());
    assert_eq!(host.len(), 3);
    assert_eq!(host.record_at(0).message, "kept");
    assert_eq!(host.record_at(1).message, "a");
    assert_eq!(host.record_at(2).message, "b");
    assert_eq!(sink.len(), 0);
}

#[test]
fn render_text_newline_terminates_each_record() {
    let mut log = LogBuffer::new();
    assert_eq!(log.render_text(), "");
    log.append(LogKind::Print, "alpha".to_string());
    log.append(LogKind::SourceReadError, "beta".to_string());
    assert_eq!(log.render_text(), "alpha\nbeta\n");
}

#[test]
fn joined_parts_concatenates_in_order() {
    assert_eq!(joined_parts(&vec![]), "");
    assert_eq!(
        joined_parts(&vec!["a".to_string(), "b".to_string(), "c".to_string()]),
        "abc"
    );
    assert_eq!(
        joined_parts(&vec!["hello ".to_string(), "world".to_string()]),
        "hello world"
    );
}

#[test]
fn config_default_values() {
    let c = Config::default();
    assert_eq!(c.website, Website::VK);
    assert!(!c.proxy_use);
    assert_eq!(c.proxy_files, vec![Proxy::Unset]);
    assert_eq!(c.proxy_sel, Proxy::Unset);
    assert!(!c.use_custom_pas);
    assert_eq!(c.default_pas, "Abcd5678");
    assert_eq!(c.pas_type, PasswordType::Generate);
    assert_eq!(c.pas_len, 8);
    assert!(c.pas_letters);
    assert!(c.pas_nums);
    assert_eq!(c.pas_files, vec![PasswordFile::Unset]);
    assert_eq!(c.pas_file, PasswordFile::Unset);
    assert!(!c.acc_photo);
    assert_eq!(c.acc_status_files, vec![StatusFile::Unset]);
    assert_eq!(c.acc_status_file, StatusFile::Unset);
    assert_eq!(c.acc_sub_files, vec![SubscribeFile::Unset]);
    assert_eq!(c.acc_sub_file, SubscribeFile::Unset);
    assert_eq!(c.acc_posts_files, vec![PostsFile::Unset]);
    assert_eq!(c.acc_posts_file, PostsFile::Unset);
    assert_eq!(c.reg_method, RegMethod::Phone);
    assert_eq!(c.reg_num, 10);
}

#[test]
fn config_dialog_default_is_closed() {
    let d = ConfigDialog::default();
    assert_eq!(d.files, vec![ConfigSelect::Unset]);
    assert_eq!(d.file, ConfigSelect::Unset);
    assert!(!d.open);
    assert!(!d.close_open);
    assert!(!d.save);
    assert!(!d.close_save);
    assert_eq!(d.save_name, "");
}
