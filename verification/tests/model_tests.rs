use std::collections::HashMap;

use poit::config::SerdeConfig;
use poit::pypi::{Digests, Info, Pypi, Urls};

#[test]
fn config_holds_both_versions() {
    let c = SerdeConfig {
        python_version: "3.11.2".to_string(),
        package_version: "null".to_string(),
    };
    assert_eq!(c.python_version, "3.11.2");
    assert_eq!(c.package_version, "null");
}

#[test]
fn pypi_document_is_plain_data() {
    let info = Info {
        author: String::new(),
        author_email: String::new(),
        bugtrack_url: None,
        classifiers: vec![],
        description: String::new(),
        description_content_type: String::new(),
        docs_url: None,
        download_url: String::new(),
        downloads: HashMap::new(),
        home_page: String::new(),
        keywords: String::new(),
        license: String::new(),
        maintainer: String::new(),
        maintainer_email: String::new(),
        name: "python-telegram-bot".to_string(),
        package_url: String::new(),
        platform: None,
        project_url: String::new(),
        project_urls: HashMap::new(),
        release_url: String::new(),
        requires_dist: vec!["httpx~=0.23.3".to_string()],
        requires_python: ">=3.7".to_string(),
        summary: String::new(),
        version: "20.1".to_string(),
        yanked: false,
        yanked_reason: None,
    };
    let url = Urls {
        comment_text: String::new(),
        digests: Digests {
            blake2b_256: String::new(),
            md5: String::new(),
            sha256: String::new(),
        },
        downloads: -1,
        filename: "python_telegram_bot-20.1-py3-none-any.whl".to_string(),
        has_sig: false,
        md5_digest: String::new(),
        packagetype: "bdist_wheel".to_string(),
        python_version: "py3".to_string(),
        requires_python: ">=3.7".to_string(),
        size: 1,
        upload_time: String::new(),
        upload_time_iso_8601: String::new(),
        url: String::new(),
        yanked: false,
        yanked_reason: None,
    };
    let doc = Pypi {
        info,
        last_serial: 1,
        urls: vec![url],
        vulnerabilities: vec![],
    };
    assert_eq!(doc.info.requires_dist, vec!["httpx~=0.23.3"]);
    assert_eq!(doc.urls.len(), 1);
}
