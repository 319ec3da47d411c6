//! The fixed texts of the generated files, and the files of the short links.

use vstd::prelude::*;
use vstd::string::StringExecFns;
use crate::artifact::{
    rendering_views, ArtifactSpec, ArtifactSpecView, ContentType, PathTemplate, RenderFailure,
    RenderedArtifact,
};
use crate::partition::partitions;
use crate::records::{views, ShortUrl};
use crate::renderer::{are_renderings_of, render_family};

verus! {

/// The warning at the head of every generated file, so that nobody edits one
/// by hand.
pub const TEMPLATE_WARNING: &'static str = "# THIS FILE HAS BEEN GENERATED BY THE CIO REPO
# AND SHOULD NEVER BE EDITED BY HAND!!
# Instead change the link in configs/links.toml
";

/// The editor mode line that closes every nginx configuration file.
pub const NGINX_MODE_LINE: &'static str = "# vi: ft=nginx";

/// Template for the nginx configuration of the subdomain urls: one server per
/// record, with a second redirect when the record has a discussion link.
pub const TEMPLATE_NGINX: &'static str = r#"{{#each this}}
# Redirect {{this.link}} to {{this.name}}.{{this.subdomain}}.oxide.computer
# Description: {{this.description}}
server {
	listen      [::]:443 ssl http2;
	listen      443 ssl http2;
	server_name {{this.name}}.{{this.subdomain}}.oxide.computer;

	include ssl-params.conf;

	ssl_certificate			/etc/nginx/ssl/wildcard.{{this.subdomain}}.oxide.computer/fullchain.pem;
	ssl_certificate_key		/etc/nginx/ssl/wildcard.{{this.subdomain}}.oxide.computer/privkey.pem;
	ssl_trusted_certificate	    	/etc/nginx/ssl/wildcard.{{this.subdomain}}.oxide.computer/fullchain.pem;

	# Add redirect.
	location / {
		return 301 "{{this.link}}";
	}

	{{#if this.discussion}}# Redirect /discussion to {{this.discussion}}
	# Description: Discussion link for {{this.description}}
	location /discussion {
		return 301 {{this.discussion}};
	}
{{/if}}
}
{{/each}}
"#;

/// Template for the nginx configuration of the paths urls: one server for the
/// subdomain, with one location per record and a second one when the record
/// has a discussion link.
pub const TEMPLATE_NGINX_PATHS: &'static str = r#"server {
	listen      [::]:443 ssl http2;
	listen      443 ssl http2;
	server_name {{this.0.subdomain}}.oxide.computer;

	include ssl-params.conf;

	# Note this certificate is NOT the wildcard, since these are paths.
	ssl_certificate			/etc/nginx/ssl/{{this.0.subdomain}}.oxide.computer/fullchain.pem;
	ssl_certificate_key		/etc/nginx/ssl/{{this.0.subdomain}}.oxide.computer/privkey.pem;
	ssl_trusted_certificate	        /etc/nginx/ssl/{{this.0.subdomain}}.oxide.computer/fullchain.pem;

	location = / {
		return 301 https://github.com/oxidecomputer/meta/tree/master/links;
	}

	{{#each this}}
	# Redirect {{this.subdomain}}.oxide.computer/{{this.name}} to {{this.link}}
	# Description: {{this.description}}
	location = /{{this.name}} {
		return 301 "{{this.link}}";
	}
{{#if this.discussion}}	# Redirect /{{this.name}}/discussion to {{this.discussion}}
	# Description: Discussion link for {{this.name}}
	location = /{{this.name}}/discussion {
		return 301 {{this.discussion}};
	}
{{/if}}
{{/each}}
}
"#;

/// Template for the DNS records in the Cloudflare terraform configuration:
/// one resource per record. The address is written as it stands, so it has to
/// be a valid expression of its own.
pub const TEMPLATE_CLOUDFLARE_TERRAFORM: &'static str = r#"{{#each this}}
resource "cloudflare_record" "{{terraformize this.name}}_{{this.subdomain}}_oxide_computer" {
  zone_id  = var.zone_id-oxide_computer
  name     = "{{this.name}}.{{this.subdomain}}.oxide.computer"
  value    = {{{this.ip}}}
  type     = "A"
  ttl      = 1
  priority = 0
  proxied  = false
}
{{/each}}
"#;

/// Template for the groups table.
pub const TEMPLATE_TABLE_GROUPS: &'static str = "<!-- THIS WHOLE FILE IS GENERATED FROM THE CIO REPO in cio/src/templates.rs DO NOT EDIT IT DIRECTLY -->
# Groups
Mailing list groups for the company.
This is also in a [Airtable workspace](https://airtable.com/tbluawHpHEo0wT9Ky/viwy0bTXGCGlkXlIZ?blocks=hide).
<!-- START doctoc -->
<!-- END doctoc -->
| Name | Email | Description | External Members Allowed? | Who can post | Who can view | Who can join | Who can discover |
| ---- | ----- | ----------- | ------------------------- |--------------|--------------|--------------|------------------|{{#each this.groups}}
| [{{ this.name }}](https://groups.google.com/a/oxidecomputer.com/forum/#!forum/{{ this.name }}) | [`{{ this.name }}@oxide.computer`](mailto:{{ this.name }}@oxide.computer) | {{ this.description }} | `{{ this.allow_external_members }}` | `{{ this.who_can_post_message }}` | `{{ this.who_can_view_group }}` | `{{ this.who_can_join }}` | `{{ this.who_can_discover_group }}` |{{/each}}
To edit anything in this table, email [jess@oxide.computer](mailto:jess@oxide.computer).
This whole file is automatically generated by `configs` from
[oxidecomputer/configs](https://github.com/oxidecomputer/configs), DO NOT edit
it directly.";

/// Template for the links table.
pub const TEMPLATE_TABLE_LINKS: &'static str = "<!-- THIS WHOLE FILE IS GENERATED FROM THE CIO REPO in cio/src/templates.rs DO NOT EDIT IT DIRECTLY -->
# Links
Helpful links and resources for members of the company.
<!-- START doctoc -->
<!-- END doctoc -->
## GitHub Repos
We have a nice way to easily link to any repository we have in the
`oxidecomputer` organization on GitHub.
```
https://{repo}.git.oxide.computer
```
OR
```
https://git.oxide.computer/{repo}
```
An example of this is: [tockilator.git.oxide.computer](https://tockilator.git.oxide.computer)
## RFDs
We have a nice way to easily link to any RFD in the [rfd](https://github.com/oxidecomputer/rfd) repo. This link updates when the file is merged into master, so you can consider it a safe link to use to link to an RFD that might move from a branch to master after being merged.
```
https://{number}.rfd.oxide.computer
```
OR
```
https://rfd.oxide.computer/{number}
```
An example of this is: [4.rfd.oxide.computer](https://4.rfd.oxide.computer)
If you are trying to get to the pull request for the RFD you can use:
```
https://{number}.rfd.oxide.computer/discussion
```
OR
```
https://rfd.oxide.computer/{number}/discussion
```
You can also view rendered versions of RFDs at [https://rfd.shared.oxide.computer/](https://rfd.shared.oxide.computer).  For more on this, see [this README](https://github.com/oxidecomputer/rfd/blob/rendered/README.md).
## Internal Resources
| Link | Description | Aliases |
| ---- | ----------- |---------|{{#each this.links}}
| [{{ @key }}.corp.oxide.computer](https://{{ @key }}.corp.oxide.computer) | {{ this.description }} | {{#each this.aliases}}[{{this}}.corp.oxide.computer](https://{{this}}.corp.oxide.computer) {{/each}} |{{/each}}
To edit anything in this table, email [jess@oxide.computer](mailto:jess@oxide.computer).
This whole file is automatically generated by `configs` from
[oxidecomputer/configs](https://github.com/oxidecomputer/configs), DO NOT edit
it directly. Instead make your changes to the [links.toml](https://github.com/oxidecomputer/configs/blob/master/configs/links.toml) file.";

/// Template for the people table.
pub const TEMPLATE_TABLE_PEOPLE: &'static str = "<!-- THIS WHOLE FILE IS GENERATED FROM THE CIO REPO in cio/src/templates.rs DO NOT EDIT IT DIRECTLY -->
# People
Members of the company.
This is also in a [Airtable workspace](https://airtable.com/tbl9hAIRMwKm526xj/viwSAemyFvIyZFxuB?blocks=hide).
<!-- START doctoc -->
<!-- END doctoc -->
| Name | Email | Email Aliases | GitHub | Chat | Twitter |
| ---- | ----- | ------------- | ------ | ---- | ------- |{{#each this.users}}
| {{ this.first_name }} {{ this.last_name }} | [`{{ this.username }}@oxide.computer`](mailto:{{ this.username }}@oxide.computer) | `{{ this.aliases }}` | {{#if this.github}}[@{{ this.github }}](https://github.com/{{ this.github }}){{/if}} | {{#if this.chat}}`{{ this.chat }}`{{/if}} | {{#if this.twitter}}[@{{ this.twitter }}](https://twitter.com/{{ this.twitter }}){{/if}} |{{/each}}
To edit anything in this table, email [jess@oxide.computer](mailto:jess@oxide.computer).
This whole file is automatically generated by `configs` from
[oxidecomputer/configs](https://github.com/oxidecomputer/configs), DO NOT edit
it directly.";

/// The family of nginx configuration files, one per subdomain.
pub open spec fn nginx_family() -> ArtifactSpecView {
    ArtifactSpecView {
        path_prefix: "/nginx/conf.d/generated."@,
        path_suffix: ".oxide.computer.conf"@,
        content_template: TEMPLATE_NGINX@,
        content_type: ContentType::Config,
    }
}

/// The family of nginx configuration files for paths, one per subdomain.
pub open spec fn nginx_paths_family() -> ArtifactSpecView {
    ArtifactSpecView {
        path_prefix: "/nginx/conf.d/generated."@,
        path_suffix: ".paths.oxide.computer.conf"@,
        content_template: TEMPLATE_NGINX_PATHS@,
        content_type: ContentType::Config,
    }
}

/// The family of terraform files, one per subdomain.
pub open spec fn terraform_family() -> ArtifactSpecView {
    ArtifactSpecView {
        path_prefix: "/terraform/cloudflare/generated."@,
        path_suffix: ".oxide.computer.tf"@,
        content_template: TEMPLATE_CLOUDFLARE_TERRAFORM@,
        content_type: ContentType::InfraCode,
    }
}

impl ArtifactSpec {
    /// The family of nginx configuration files.
    pub fn nginx() -> (out: ArtifactSpec)
        ensures
            out@ == nginx_family(),
    {
        ArtifactSpec {
            path_template: PathTemplate {
                prefix: String::from_str("/nginx/conf.d/generated."),
                suffix: String::from_str(".oxide.computer.conf"),
            },
            content_template: String::from_str(TEMPLATE_NGINX),
            content_type: ContentType::Config,
        }
    }

    /// The family of nginx configuration files for paths.
    pub fn nginx_paths() -> (out: ArtifactSpec)
        ensures
            out@ == nginx_paths_family(),
    {
        ArtifactSpec {
            path_template: PathTemplate {
                prefix: String::from_str("/nginx/conf.d/generated."),
                suffix: String::from_str(".paths.oxide.computer.conf"),
            },
            content_template: String::from_str(TEMPLATE_NGINX_PATHS),
            content_type: ContentType::Config,
        }
    }

    /// The family of terraform files.
    pub fn terraform() -> (out: ArtifactSpec)
        ensures
            out@ == terraform_family(),
    {
        ArtifactSpec {
            path_template: PathTemplate {
                prefix: String::from_str("/terraform/cloudflare/generated."),
                suffix: String::from_str(".oxide.computer.tf"),
            },
            content_template: String::from_str(TEMPLATE_CLOUDFLARE_TERRAFORM),
            content_type: ContentType::InfraCode,
        }
    }
}

/// Renders the terraform files for short links, bound for `branch`: one file
/// for each subdomain among the links, and none where there are no links.
pub fn generate_terraform_files_for_shorturls(branch: &str, shorturls: Vec<ShortUrl>) -> (out: Vec<
    Result<RenderedArtifact, RenderFailure>,
>)
    ensures
        are_renderings_of(
            rendering_views(out@),
            terraform_family(),
            partitions(views(shorturls@)),
            Some(branch@),
        ),
        shorturls@.len() == 0 ==> out@.len() == 0,
{
    let target = Some(String::from_str(branch));
    render_family(&ArtifactSpec::terraform(), &shorturls, &target)
}

/// The entries of the family at place `index`, where every family has `count`
/// entries and the families follow one another.
pub open spec fn family_slice<T>(entries: Seq<T>, index: nat, count: nat) -> Seq<T> {
    entries.subrange((index * count) as int, ((index + 1) * count) as int)
}

/// Renders the nginx and terraform files for short links, bound for `branch`.
/// For each subdomain among the links there are three files: the nginx
/// configuration, the nginx configuration for paths and the terraform file.
/// The files come family by family, in that order, and within a family in
/// the order in which the subdomains first occur. No links give no files.
pub fn generate_nginx_and_terraform_files_for_shorturls(branch: &str, shorturls: Vec<ShortUrl>) -> (out:
    Vec<Result<RenderedArtifact, RenderFailure>>)
    ensures
        out@.len() == 3 * partitions(views(shorturls@)).len(),
        are_renderings_of(
            family_slice(rendering_views(out@), 0, partitions(views(shorturls@)).len()),
            nginx_family(),
            partitions(views(shorturls@)),
            Some(branch@),
        ),
        are_renderings_of(
            family_slice(rendering_views(out@), 1, partitions(views(shorturls@)).len()),
            nginx_paths_family(),
            partitions(views(shorturls@)),
            Some(branch@),
        ),
        are_renderings_of(
            family_slice(rendering_views(out@), 2, partitions(views(shorturls@)).len()),
            terraform_family(),
            partitions(views(shorturls@)),
            Some(branch@),
        ),
        shorturls@.len() == 0 ==> out@.len() == 0,
{
    let target = Some(String::from_str(branch));
    let mut files = render_family(&ArtifactSpec::nginx(), &shorturls, &target);
    let mut paths = render_family(&ArtifactSpec::nginx_paths(), &shorturls, &target);
    let mut terraform = generate_terraform_files_for_shorturls(branch, shorturls);
    let ghost n = files@.len();
    let ghost first = files@;
    let ghost second = paths@;
    let ghost third = terraform@;
    files.append(&mut paths);
    files.append(&mut terraform);
    proof {
        assert(files@ == first + second + third);
        assert(rendering_views(first).len() == n && rendering_views(second).len() == n
            && rendering_views(third).len() == n);
        assert(0 * n == 0 && 1 * n == n && 2 * n == n + n && 3 * n == n + n + n);
        assert(family_slice(rendering_views(files@), 0, n) =~= rendering_views(first));
        assert(family_slice(rendering_views(files@), 1, n) =~= rendering_views(second));
        assert(family_slice(rendering_views(files@), 2, n) =~= rendering_views(third));
    }
    files
}

} // verus!
