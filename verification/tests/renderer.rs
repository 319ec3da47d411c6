use cio::artifact::{ArtifactSpec, ContentType, PathTemplate, RenderFailure, RenderedArtifact};
use cio::records::ShortUrl;
use cio::renderer::{frame, render_family, render_partition};
use cio::partition::Partition;
use cio::context::short_urls_context;
use cio::engine::{
    has_partial_call, has_too_many_marks, render, DEPTH_REFUSED, MAX_NESTING_MARKS,
    PARTIAL_REFUSED,
};
use cio::errors::RenderingError;
use cio::templates::{
    generate_nginx_and_terraform_files_for_shorturls, generate_terraform_files_for_shorturls,
    NGINX_MODE_LINE, TEMPLATE_CLOUDFLARE_TERRAFORM, TEMPLATE_NGINX, TEMPLATE_NGINX_PATHS,
    TEMPLATE_TABLE_GROUPS, TEMPLATE_TABLE_LINKS, TEMPLATE_TABLE_PEOPLE, TEMPLATE_WARNING,
};

const BANNER: &str = "# THIS FILE HAS BEEN GENERATED BY THE CIO REPO\n# AND SHOULD NEVER BE EDITED BY HAND!!\n# Instead change the link in configs/links.toml\n";

fn short_url(name: &str, subdomain: &str, discussion: Option<&str>) -> ShortUrl {
    ShortUrl {
        name: name.to_string(),
        description: String::new(),
        link: format!("https://example.com/{}", name),
        ip: "var.maverick_ip".to_string(),
        subdomain: subdomain.to_string(),
        discussion: discussion.map(|d| d.to_string()),
    }
}

fn text_of(artifact: &RenderedArtifact) -> String {
    String::from_utf8(artifact.content.clone()).unwrap()
}

fn artifact(entry: &Result<RenderedArtifact, RenderFailure>) -> &RenderedArtifact {
    match entry {
        Ok(artifact) => artifact,
        Err(failure) => panic!("{} was not rendered: {}", failure.path, failure.reason),
    }
}

fn server_block(record: &ShortUrl) -> String {
    let host = format!("{}.oxide.computer", record.subdomain);
    let mut block = format!(
        "# Redirect {link} to {name}.{host}\n# Description: {description}\nserver {{\n\tlisten      [::]:443 ssl http2;\n\tlisten      443 ssl http2;\n\tserver_name {name}.{host};\n\n\tinclude ssl-params.conf;\n\n\tssl_certificate\t\t\t/etc/nginx/ssl/wildcard.{host}/fullchain.pem;\n\tssl_certificate_key\t\t/etc/nginx/ssl/wildcard.{host}/privkey.pem;\n\tssl_trusted_certificate\t    \t/etc/nginx/ssl/wildcard.{host}/fullchain.pem;\n\n\t# Add redirect.\n\tlocation / {{\n\t\treturn 301 \"{link}\";\n\t}}\n\n\t",
        link = record.link,
        name = record.name,
        host = host,
        description = record.description,
    );
    if let Some(discussion) = &record.discussion {
        block += &format!(
            "# Redirect /discussion to {discussion}\n\t# Description: Discussion link for {description}\n\tlocation /discussion {{\n\t\treturn 301 {discussion};\n\t}}\n",
            discussion = discussion,
            description = record.description,
        );
    }
    block + "}\n"
}

#[test]
fn banner_and_mode_line_are_the_fixed_texts() {
    assert_eq!(TEMPLATE_WARNING, BANNER);
    assert_eq!(NGINX_MODE_LINE, "# vi: ft=nginx");
}

#[test]
fn frame_puts_the_banner_first_and_closes_configuration_files() {
    assert_eq!(frame(ContentType::Config, "body\n"), format!("{}body\n# vi: ft=nginx", BANNER));
    assert_eq!(frame(ContentType::InfraCode, "body\n"), format!("{}body\n", BANNER));
    assert_eq!(frame(ContentType::Documentation, "body"), format!("{}body", BANNER));
    assert_eq!(frame(ContentType::Config, ""), format!("{}# vi: ft=nginx", BANNER));
}

#[test]
fn path_template_surrounds_the_key() {
    let template = PathTemplate { prefix: "/a/generated.".to_string(), suffix: ".conf".to_string() };
    assert_eq!(template.instantiate("corp"), "/a/generated.corp.conf");
    assert_eq!(template.instantiate(""), "/a/generated..conf");
}

#[test]
fn family_paths_name_the_subdomain() {
    let records = vec![short_url("docs", "corp", None)];
    let files = generate_nginx_and_terraform_files_for_shorturls("main", records);
    assert_eq!(files.len(), 3);
    assert_eq!(artifact(&files[0]).path, "/nginx/conf.d/generated.corp.oxide.computer.conf");
    assert_eq!(artifact(&files[1]).path, "/nginx/conf.d/generated.corp.paths.oxide.computer.conf");
    assert_eq!(artifact(&files[2]).path, "/terraform/cloudflare/generated.corp.oxide.computer.tf");
    for file in &files {
        assert_eq!(artifact(file).branch, Some("main".to_string()));
    }
}

#[test]
fn redirect_config_for_two_links_end_to_end() {
    let docs = short_url("docs", "corp", None);
    let rfd = ShortUrl {
        name: "rfd".to_string(),
        description: String::new(),
        link: "https://example.com/rfd".to_string(),
        ip: "var.maverick_ip".to_string(),
        subdomain: "corp".to_string(),
        discussion: Some("https://example.com/rfd/discuss".to_string()),
    };
    let files = render_family(&ArtifactSpec::nginx(), &vec![docs.clone(), rfd.clone()], &None);
    assert_eq!(files.len(), 1);
    let text = text_of(artifact(&files[0]));
    assert_eq!(
        text,
        format!("{}{}{}# vi: ft=nginx", BANNER, server_block(&docs), server_block(&rfd))
    );
    assert!(text.starts_with(BANNER));
    assert!(text.ends_with("\n# vi: ft=nginx"));
    assert_eq!(text.matches("server {").count(), 2);
    assert_eq!(text.matches("location /discussion {").count(), 1);
    let second = text.rfind("server {").unwrap();
    assert!(text.find("location /discussion {").unwrap() > second);
    assert_eq!(artifact(&files[0]).branch, None);
}

#[test]
fn discussion_block_follows_its_own_record_only() {
    let with = short_url("rfd", "corp", Some("https://example.com/discuss"));
    let without = short_url("docs", "corp", None);
    let files = render_family(&ArtifactSpec::nginx(), &vec![with.clone(), without.clone()], &None);
    let text = text_of(artifact(&files[0]));
    assert_eq!(
        text,
        format!("{}{}{}# vi: ft=nginx", BANNER, server_block(&with), server_block(&without))
    );
    let block = "\t# Redirect /discussion to https://example.com/discuss\n\t# Description: Discussion link for \n\tlocation /discussion {\n\t\treturn 301 https://example.com/discuss;\n\t}\n}\n";
    let at = text.find(block).unwrap();
    assert!(at < text.find("server_name docs.corp.oxide.computer;").unwrap());
    assert!(at > text.find("server_name rfd.corp.oxide.computer;").unwrap());
    assert_eq!(text.matches("/discussion").count(), 2);
}

#[test]
fn an_empty_discussion_gives_no_block() {
    let record = short_url("docs", "corp", Some(""));
    let files = render_family(&ArtifactSpec::nginx(), &vec![record], &None);
    assert!(!text_of(artifact(&files[0])).contains("/discussion"));
}

#[test]
fn paths_config_has_one_server_and_a_location_per_link() {
    let records = vec![
        short_url("docs", "corp", None),
        short_url("rfd", "corp", Some("https://example.com/rfd/discuss")),
    ];
    let files = render_family(&ArtifactSpec::nginx_paths(), &records, &None);
    assert_eq!(files.len(), 1);
    let text = text_of(artifact(&files[0]));
    let expected = format!(
        "{}server {{\n\tlisten      [::]:443 ssl http2;\n\tlisten      443 ssl http2;\n\tserver_name corp.oxide.computer;\n\n\tinclude ssl-params.conf;\n\n\t# Note this certificate is NOT the wildcard, since these are paths.\n\tssl_certificate\t\t\t/etc/nginx/ssl/corp.oxide.computer/fullchain.pem;\n\tssl_certificate_key\t\t/etc/nginx/ssl/corp.oxide.computer/privkey.pem;\n\tssl_trusted_certificate\t        /etc/nginx/ssl/corp.oxide.computer/fullchain.pem;\n\n\tlocation = / {{\n\t\treturn 301 https://github.com/oxidecomputer/meta/tree/master/links;\n\t}}\n\n\t# Redirect corp.oxide.computer/docs to https://example.com/docs\n\t# Description: \n\tlocation = /docs {{\n\t\treturn 301 \"https://example.com/docs\";\n\t}}\n\t# Redirect corp.oxide.computer/rfd to https://example.com/rfd\n\t# Description: \n\tlocation = /rfd {{\n\t\treturn 301 \"https://example.com/rfd\";\n\t}}\n\t# Redirect /rfd/discussion to https://example.com/rfd/discuss\n\t# Description: Discussion link for rfd\n\tlocation = /rfd/discussion {{\n\t\treturn 301 https://example.com/rfd/discuss;\n\t}}\n}}\n# vi: ft=nginx",
        BANNER
    );
    assert_eq!(text, expected);
}

#[test]
fn terraform_file_terraformizes_names_and_writes_the_address_raw() {
    let mut quoted = short_url("3rfd", "corp", None);
    quoted.ip = "\"10.0.0.1\" # <raw> & 'unescaped'".to_string();
    let records = vec![short_url("docs", "corp", None), quoted];
    let files = generate_terraform_files_for_shorturls("main", records);
    assert_eq!(files.len(), 1);
    let expected = format!(
        "{}resource \"cloudflare_record\" \"docs_corp_oxide_computer\" {{\n  zone_id  = var.zone_id-oxide_computer\n  name     = \"docs.corp.oxide.computer\"\n  value    = var.maverick_ip\n  type     = \"A\"\n  ttl      = 1\n  priority = 0\n  proxied  = false\n}}\nresource \"cloudflare_record\" \"_3rfd_corp_oxide_computer\" {{\n  zone_id  = var.zone_id-oxide_computer\n  name     = \"3rfd.corp.oxide.computer\"\n  value    = \"10.0.0.1\" # <raw> & 'unescaped'\n  type     = \"A\"\n  ttl      = 1\n  priority = 0\n  proxied  = false\n}}\n",
        BANNER
    );
    assert_eq!(text_of(artifact(&files[0])), expected);
}

#[test]
fn helper_is_known_to_any_template() {
    let data = short_urls_context(&vec![short_url("3foo", "corp", None)]);
    assert_eq!(
        render("{{#each this}}{{terraformize this.name}}|{{terraformize this.subdomain}}{{/each}}", &data),
        Ok("_3foo|corp".to_string())
    );
    assert_eq!(render("{{terraformize 7}}", &data), Ok("_7".to_string()));
    assert_eq!(render("{{terraformize \"9\"}}", &data), Ok("_9".to_string()));
    assert_eq!(render("{{terraformize this.0.missing}}", &data), Ok(String::new()));
}

#[test]
fn helper_keeps_a_name_that_holds_quotes() {
    for name in ["a\"b", "b\"", "\"c", "\"d\"", "e\\f", "3\"g"] {
        let data = short_urls_context(&vec![short_url(name, "corp", None)]);
        let expected = if name.starts_with('3') { format!("_{}", name) } else { name.to_string() };
        assert_eq!(render("{{#each this}}{{terraformize this.name}}{{/each}}", &data), Ok(expected));
    }
}

#[test]
fn helper_without_a_parameter_fails_the_rendering() {
    let data = short_urls_context(&vec![short_url("docs", "corp", None)]);
    let failed = render("[{{terraformize}}]", &data).unwrap_err();
    assert!(failed.reason.contains("terraformize needs an identifier as its parameter"));
    let spec = ArtifactSpec {
        path_template: PathTemplate { prefix: "/t/".to_string(), suffix: ".tf".to_string() },
        content_template: "{{#each this}}{{terraformize}}_{{this.subdomain}}{{/each}}".to_string(),
        content_type: ContentType::InfraCode,
    };
    let entries = render_family(&spec, &vec![short_url("docs", "corp", None)], &None);
    assert_eq!(entries.len(), 1);
    let failure = entries[0].clone().unwrap_err();
    assert_eq!(failure.path, "/t/corp.tf");
    assert!(failure.reason.contains("terraformize needs an identifier as its parameter"));
}

#[test]
fn a_template_that_calls_a_partial_is_refused() {
    let data = short_urls_context(&vec![short_url("docs", "corp", None)]);
    let refused = Err(RenderingError { reason: PARTIAL_REFUSED.to_string() });
    assert_eq!(PARTIAL_REFUSED, "the template calls a partial");
    for template in [
        "{{#*inline \"a\"}}{{> a}}{{/inline}}{{> a}}",
        "{{> missing}}",
        "{{>missing}}",
        "{{~> missing}}",
        "{{ > missing}}",
        "{{~ > missing}}",
        "{{#> layout}}body{{/layout}}",
        "{{# > layout}}body{{/layout}}",
        "{{~#> layout}}body{{/layout}}",
        "{{\n>\tmissing}}",
        "text {{this.0.name}} {{> (lookup this \"x\")}}",
        "{{> @partial-block}}",
        "{{{> a}}}",
    ] {
        assert!(has_partial_call(template), "{}", template);
        assert_eq!(render(template, &data), refused, "{}", template);
    }
}

#[test]
fn a_template_without_a_partial_call_reaches_the_engine() {
    let data = short_urls_context(&vec![short_url("docs", "corp", None)]);
    for template in [
        "",
        ">",
        "a > b",
        "{ > }",
        "{>",
        "{{this.0.name}} > x",
        "<!-- {{this.0.name}} -->",
        "{{#each this}}{{this.name}}>{{/each}}",
        "{{!-- > --}}",
        "{ {> a}}",
        "{{x>",
    ] {
        assert!(!has_partial_call(template), "{}", template);
    }
    assert_eq!(render("{{this.0.name}} > x", &data), Ok("docs > x".to_string()));
    assert_eq!(render("<!-- {{this.0.name}} -->", &data), Ok("<!-- docs -->".to_string()));
    assert_eq!(render("a > b", &data), Ok("a > b".to_string()));
    assert_eq!(
        render("{{#*inline \"a\"}}never called{{/inline}}done", &data),
        Ok("done".to_string())
    );
}

#[test]
fn a_template_with_too_many_nesting_marks_is_refused() {
    let data = short_urls_context(&vec![short_url("docs", "corp", None)]);
    assert_eq!(MAX_NESTING_MARKS, 256);
    assert_eq!(DEPTH_REFUSED, "the template holds too many braces, brackets and parentheses");
    let refused = Err(RenderingError { reason: DEPTH_REFUSED.to_string() });
    // Each opening tag holds two marks.
    let deep = format!("{}x{}", "{{#if this}}".repeat(129), "{{/if}}".repeat(129));
    assert!(has_too_many_marks(&deep));
    assert_eq!(render(&deep, &data), refused);
    for marks in ["{".repeat(257), "(".repeat(257), "[".repeat(257), "{([".repeat(86)] {
        assert!(has_too_many_marks(&marks), "{}", marks.len());
        assert_eq!(render(&marks, &data), refused);
    }
    let flat = "{{this.0.name}}".repeat(129);
    assert_eq!(render(&flat, &data), refused);
}

#[test]
fn a_template_within_the_limit_reaches_the_engine() {
    let data = short_urls_context(&vec![short_url("docs", "corp", None)]);
    let nested = format!("{}x{}", "{{#if this}}".repeat(64), "{{/if}}".repeat(64));
    assert!(!has_too_many_marks(&nested));
    assert_eq!(render(&nested, &data), Ok("x".to_string()));
    let flat = "{{this.0.name}};".repeat(128);
    assert!(!has_too_many_marks(&flat));
    assert_eq!(render(&flat, &data), Ok("docs;".repeat(128)));
    for marks in ["(".repeat(256), "[".repeat(256), "}])".repeat(1000), String::new()] {
        assert!(!has_too_many_marks(&marks));
        assert_eq!(render(&marks, &data), Ok(marks.clone()));
    }
}

#[test]
fn a_failure_of_the_engine_says_why() {
    let data = short_urls_context(&vec![short_url("docs", "corp", None)]);
    for template in [
        "{{terraformize a=(x 1) b=(y 1)}}",
        "{{#if}",
        "{{unknown_helper this}}",
        "{{terraformize}}",
        "{{#each this}}{{/if}}",
    ] {
        let failed = render(template, &data).unwrap_err();
        assert!(!failed.reason.is_empty(), "{}", template);
        assert!(render(template, &data).is_err());
    }
}

#[test]
fn the_fixed_templates_are_not_refused() {
    for template in [
        TEMPLATE_NGINX,
        TEMPLATE_NGINX_PATHS,
        TEMPLATE_CLOUDFLARE_TERRAFORM,
        TEMPLATE_TABLE_GROUPS,
        TEMPLATE_TABLE_LINKS,
        TEMPLATE_TABLE_PEOPLE,
    ] {
        assert!(!has_partial_call(template));
        assert!(!has_too_many_marks(template));
    }
}

#[test]
fn a_family_whose_template_calls_a_partial_fails_each_partition() {
    let spec = ArtifactSpec {
        path_template: PathTemplate { prefix: "/x/".to_string(), suffix: ".conf".to_string() },
        content_template: "{{#*inline \"a\"}}{{> a}}{{/inline}}{{> a}}".to_string(),
        content_type: ContentType::Config,
    };
    let records = vec![short_url("docs", "corp", None), short_url("4", "rfd", None)];
    let entries = render_family(&spec, &records, &None);
    assert_eq!(
        entries,
        vec![
            Err(RenderFailure { path: "/x/corp.conf".to_string(), reason: PARTIAL_REFUSED.to_string() }),
            Err(RenderFailure { path: "/x/rfd.conf".to_string(), reason: PARTIAL_REFUSED.to_string() }),
        ]
    );
}

#[test]
fn rendering_twice_gives_the_same_bytes() {
    let records = vec![
        short_url("docs", "corp", None),
        short_url("4", "rfd", Some("https://example.com/4/discuss")),
        short_url("wiki", "corp", None),
    ];
    let first = generate_nginx_and_terraform_files_for_shorturls("main", records.clone());
    let second = generate_nginx_and_terraform_files_for_shorturls("main", records);
    assert_eq!(first, second);
    assert_eq!(first.len(), 6);
    for (a, b) in first.iter().zip(second.iter()) {
        assert_eq!(artifact(a).content, artifact(b).content);
    }
}

#[test]
fn no_records_give_no_artifacts() {
    assert!(render_family(&ArtifactSpec::nginx(), &Vec::new(), &None).is_empty());
    assert!(generate_terraform_files_for_shorturls("main", Vec::new()).is_empty());
    assert!(generate_nginx_and_terraform_files_for_shorturls("main", Vec::new()).is_empty());
}

#[test]
fn each_subdomain_gets_its_own_files_family_by_family() {
    let records = vec![
        short_url("docs", "corp", None),
        short_url("4", "rfd", None),
        short_url("wiki", "corp", None),
    ];
    let files = generate_nginx_and_terraform_files_for_shorturls("main", records.clone());
    let paths: Vec<&str> = files.iter().map(|f| artifact(f).path.as_str()).collect();
    assert_eq!(
        paths,
        vec![
            "/nginx/conf.d/generated.corp.oxide.computer.conf",
            "/nginx/conf.d/generated.rfd.oxide.computer.conf",
            "/nginx/conf.d/generated.corp.paths.oxide.computer.conf",
            "/nginx/conf.d/generated.rfd.paths.oxide.computer.conf",
            "/terraform/cloudflare/generated.corp.oxide.computer.tf",
            "/terraform/cloudflare/generated.rfd.oxide.computer.tf",
        ]
    );
    let corp = text_of(artifact(&files[0]));
    assert_eq!(
        corp,
        format!("{}{}{}# vi: ft=nginx", BANNER, server_block(&records[0]), server_block(&records[2]))
    );
    let rfd = text_of(artifact(&files[1]));
    assert_eq!(rfd, format!("{}{}# vi: ft=nginx", BANNER, server_block(&records[1])));
}

#[test]
fn a_template_that_does_not_render_fails_each_partition_by_its_path() {
    let broken = ArtifactSpec {
        path_template: PathTemplate { prefix: "/x/".to_string(), suffix: ".conf".to_string() },
        content_template: "{{#each this}}{{this.name}".to_string(),
        content_type: ContentType::Config,
    };
    let records = vec![short_url("docs", "corp", None), short_url("4", "rfd", None)];
    let entries = render_family(&broken, &records, &None);
    assert_eq!(entries.len(), 2);
    match (&entries[0], &entries[1]) {
        (Err(first), Err(second)) => {
            assert_eq!(first.path, "/x/corp.conf");
            assert_eq!(second.path, "/x/rfd.conf");
            assert!(!first.reason.is_empty());
        },
        _ => panic!("a broken template rendered"),
    }
    let failed = render("{{#if}", &short_urls_context(&Vec::new())).unwrap_err();
    assert!(!failed.reason.is_empty());
}

#[test]
fn render_partition_renders_the_records_it_is_given() {
    let partition = Partition {
        key: "corp".to_string(),
        records: vec![short_url("docs", "other", None)],
    };
    let spec = ArtifactSpec {
        path_template: PathTemplate { prefix: "/p/".to_string(), suffix: String::new() },
        content_template: "{{#each this}}{{this.name}}.{{this.subdomain}};{{/each}}".to_string(),
        content_type: ContentType::InfraCode,
    };
    let rendered = render_partition(&spec, &partition, &Some("deploy".to_string())).unwrap();
    assert_eq!(rendered.path, "/p/corp");
    assert_eq!(rendered.branch, Some("deploy".to_string()));
    assert_eq!(text_of(&rendered), format!("{}docs.other;", BANNER));
}

#[test]
fn content_is_the_utf8_of_the_text() {
    let mut record = short_url("caf\u{e9}", "corp", None);
    record.description = "\u{1f600} d\u{e9}j\u{e0}".to_string();
    let spec = ArtifactSpec {
        path_template: PathTemplate { prefix: String::new(), suffix: String::new() },
        content_template: "{{#each this}}{{this.description}}{{/each}}".to_string(),
        content_type: ContentType::Documentation,
    };
    let files = render_family(&spec, &vec![record], &None);
    let expected = format!("{}\u{1f600} d\u{e9}j\u{e0}", BANNER);
    assert_eq!(artifact(&files[0]).content, expected.as_bytes().to_vec());
}

#[test]
fn nginx_template_is_the_one_rendered() {
    let spec = ArtifactSpec::nginx();
    assert_eq!(spec.content_template, TEMPLATE_NGINX);
    assert_eq!(spec.content_type, ContentType::Config);
    assert_eq!(ArtifactSpec::terraform().content_type, ContentType::InfraCode);
    assert_eq!(ArtifactSpec::nginx_paths().content_type, ContentType::Config);
}
