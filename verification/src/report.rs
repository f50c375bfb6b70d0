//! The two bodies of the notification mail: a plain-text report and an HTML
//! alternative, each listing the upgradable packages and the refresh
//! operation's event log line by line.

use vstd::prelude::*;
use crate::config::Mail;
use crate::events::{event_wf, spec_render, EventModel, ProgressOutput, UnitText};
use crate::strings::{join, lemma_views_snoc, spec_join, views_of_strings};
use crate::upgrade::Upgradeable;

verus! {

/// The text of an optional version identifier, empty where absent.
pub open spec fn opt_str(o: Option<String>) -> Seq<char> {
    match o {
        Some(s) => s@,
        None => Seq::empty(),
    }
}

/// An optional text block as lines of the report: its one line, or none.
pub open spec fn opt_block(o: Option<String>) -> Seq<Seq<char>> {
    match o {
        Some(s) => seq![s@],
        None => Seq::empty(),
    }
}

/// One line of the plain packages list.
pub open spec fn spec_plain_pkg_line(p: Upgradeable) -> Seq<char> {
    p.name@ + "/"@ + p.archive@ + " "@ + p.arch@ + " "@ + opt_str(p.candidate)
        + " [upgradeable from: "@ + opt_str(p.installed) + "]"@
}

/// One row of the HTML packages table.
pub open spec fn spec_html_pkg_row(p: Upgradeable) -> Seq<char> {
    "<tr><td><code>"@ + p.name@ + "</code><br><code>/"@ + p.archive@ + " "@ + p.arch@
        + "</code></td><td><code>"@ + opt_str(p.installed) + "</code></td><td><code>"@ + opt_str(
        p.candidate,
    ) + "</code></td></tr>"@
}

/// Each event's rendered line, in log order.
pub open spec fn spec_rendered(events: Seq<EventModel>, units: Seq<UnitText>) -> Seq<Seq<char>> {
    Seq::new(
        events.len(),
        |k: int| spec_render(events[k], units[k].size@, units[k].elapsed@, units[k].rate@),
    )
}

/// The lines of the plain-text report, in order: the optional leading block,
/// the packages section, the output section, and the optional trailing
/// block.
pub open spec fn spec_plain_lines(
    mail: Mail,
    pkgs: Seq<Upgradeable>,
    events: Seq<EventModel>,
    units: Seq<UnitText>,
) -> Seq<Seq<char>> {
    opt_block(mail.prepend) + seq!["# Packages\n"@] + pkgs.map_values(
        |p: Upgradeable| spec_plain_pkg_line(p),
    ) + seq!["\n"@, "# Output\n"@] + spec_rendered(events, units) + opt_block(mail.append)
}

/// The lines of the HTML report, in order: the document head, the optional
/// leading block, the packages table, the output block, the optional
/// trailing block, and the document tail.
pub open spec fn spec_html_lines(
    mail: Mail,
    pkgs: Seq<Upgradeable>,
    events: Seq<EventModel>,
    units: Seq<UnitText>,
) -> Seq<Seq<char>> {
    seq!["<!DOCTYPE html>\n    <html>\n    <head>\n    </head>\n    <body>"@] + opt_block(
        mail.prepend,
    ) + seq![
        "        <h1>Packages</h1>\n        <table border=\"1\" rules=\"all\">\n            <tr>\n                <th>Package</th>\n                <th>Installed</th>\n                <th>Candidate</th>\n            </tr>"@,
    ] + pkgs.map_values(|p: Upgradeable| spec_html_pkg_row(p)) + seq![
        "        </table><h1>Output</h1><pre>"@,
    ] + spec_rendered(events, units) + seq!["</pre>"@] + opt_block(mail.append) + seq![
        "\n    </body>\n    </html>"@,
    ]
}

fn push_opt_text(r: &mut String, o: &Option<String>)
    ensures
        final(r)@ == old(r)@ + opt_str(*o),
{
    match o {
        Some(s) => r.append(s.as_str()),
        None => {
            proof {
                assert(r@ =~= r@ + opt_str(*o));
            }
        },
    }
}

/// Builds one line of the plain packages list.
pub fn plain_pkg_line(p: &Upgradeable) -> (r: String)
    ensures
        r@ == spec_plain_pkg_line(*p),
{
    let mut r = p.name.clone();
    r.append("/");
    r.append(p.archive.as_str());
    r.append(" ");
    r.append(p.arch.as_str());
    r.append(" ");
    push_opt_text(&mut r, &p.candidate);
    r.append(" [upgradeable from: ");
    push_opt_text(&mut r, &p.installed);
    r.append("]");
    proof {
        assert(r@ =~= spec_plain_pkg_line(*p));
    }
    r
}

/// Builds one row of the HTML packages table.
pub fn html_pkg_row(p: &Upgradeable) -> (r: String)
    ensures
        r@ == spec_html_pkg_row(*p),
{
    let mut r = String::from_str("<tr><td><code>");
    r.append(p.name.as_str());
    r.append("</code><br><code>/");
    r.append(p.archive.as_str());
    r.append(" ");
    r.append(p.arch.as_str());
    r.append("</code></td><td><code>");
    push_opt_text(&mut r, &p.installed);
    r.append("</code></td><td><code>");
    push_opt_text(&mut r, &p.candidate);
    r.append("</code></td></tr>");
    proof {
        assert(r@ =~= spec_html_pkg_row(*p));
    }
    r
}

fn push_pkg_lines(buf: &mut Vec<String>, upgradeable: &Vec<Upgradeable>, html: bool)
    ensures
        views_of_strings(final(buf)@) == views_of_strings(old(buf)@) + upgradeable@.map_values(
            |p: Upgradeable| if html {
                spec_html_pkg_row(p)
            } else {
                spec_plain_pkg_line(p)
            },
        ),
{
    let ghost seg = upgradeable@.map_values(
        |p: Upgradeable| if html {
            spec_html_pkg_row(p)
        } else {
            spec_plain_pkg_line(p)
        },
    );
    let ghost base = views_of_strings(buf@);
    for i in 0..upgradeable.len()
        invariant
            seg == upgradeable@.map_values(
                |p: Upgradeable| if html {
                    spec_html_pkg_row(p)
                } else {
                    spec_plain_pkg_line(p)
                },
            ),
            views_of_strings(buf@) == base + seg.take(i as int),
    {
        let ghost pre = buf@;
        if html {
            buf.push(html_pkg_row(&upgradeable[i]));
        } else {
            buf.push(plain_pkg_line(&upgradeable[i]));
        }
        proof {
            lemma_views_snoc(buf@);
            assert(buf@.drop_last() =~= pre);
            assert(views_of_strings(buf@) =~= base + seg.take(i + 1));
        }
    }
    proof {
        assert(seg.take(upgradeable@.len() as int) =~= seg);
    }
}

fn push_event_lines(buf: &mut Vec<String>, output: &Vec<ProgressOutput>, units: &Vec<UnitText>)
    requires
        units@.len() == output@.len(),
        forall|k: int| 0 <= k < output@.len() ==> event_wf(#[trigger] output@[k]@),
    ensures
        views_of_strings(final(buf)@) == views_of_strings(old(buf)@) + spec_rendered(
            output@.map_values(|ev: ProgressOutput| ev@),
            units@,
        ),
{
    let ghost events = output@.map_values(|ev: ProgressOutput| ev@);
    let ghost seg = spec_rendered(events, units@);
    let ghost base = views_of_strings(buf@);
    for i in 0..output.len()
        invariant
            units@.len() == output@.len(),
            forall|k: int| 0 <= k < output@.len() ==> event_wf(#[trigger] output@[k]@),
            events == output@.map_values(|ev: ProgressOutput| ev@),
            seg == spec_rendered(events, units@),
            views_of_strings(buf@) == base + seg.take(i as int),
    {
        let ghost pre = buf@;
        let line = output[i].render(&units[i]);
        proof {
            assert(line@ == seg[i as int]);
        }
        buf.push(line);
        proof {
            lemma_views_snoc(buf@);
            assert(buf@.drop_last() =~= pre);
            assert(views_of_strings(buf@) =~= base + seg.take(i + 1));
        }
    }
    proof {
        assert(seg.take(output@.len() as int) =~= seg);
    }
}

fn push_opt_line(buf: &mut Vec<String>, o: Option<String>)
    ensures
        views_of_strings(final(buf)@) == views_of_strings(old(buf)@) + opt_block(o),
{
    let ghost base = views_of_strings(buf@);
    match o {
        Some(p) => {
            let ghost pre = buf@;
            buf.push(p);
            proof {
                lemma_views_snoc(buf@);
                assert(buf@.drop_last() =~= pre);
                assert(views_of_strings(buf@) =~= base + opt_block(o));
            }
        },
        None => {
            proof {
                assert(views_of_strings(buf@) =~= base + opt_block(o));
            }
        },
    }
}

fn push_line(buf: &mut Vec<String>, line: &str)
    ensures
        views_of_strings(final(buf)@) == views_of_strings(old(buf)@).push(line@),
{
    let ghost pre = buf@;
    buf.push(String::from_str(line));
    proof {
        lemma_views_snoc(buf@);
        assert(buf@.drop_last() =~= pre);
    }
}

/// Builds the plain-text report: the lines of [`spec_plain_lines`], joined
/// by newlines.  `units` holds, for each event in order, the
/// backend-formatted text of its numeric fields.
pub fn make_plain(
    mail_config: &Mail,
    upgradeable: &Vec<Upgradeable>,
    output: &Vec<ProgressOutput>,
    units: &Vec<UnitText>,
) -> (r: String)
    requires
        units@.len() == output@.len(),
        forall|k: int| 0 <= k < output@.len() ==> event_wf(#[trigger] output@[k]@),
    ensures
        r@ == spec_join(
            spec_plain_lines(
                *mail_config,
                upgradeable@,
                output@.map_values(|ev: ProgressOutput| ev@),
                units@,
            ),
            "\n"@,
        ),
{
    let ghost events = output@.map_values(|ev: ProgressOutput| ev@);
    let ghost lines = spec_plain_lines(*mail_config, upgradeable@, events, units@);
    let mut buf: Vec<String> = Vec::new();
    proof {
        assert(views_of_strings(buf@) =~= Seq::<Seq<char>>::empty());
    }
    push_opt_line(&mut buf, mail_config.prepend());
    push_line(&mut buf, "# Packages\n");
    push_pkg_lines(&mut buf, upgradeable, false);
    push_line(&mut buf, "\n");
    push_line(&mut buf, "# Output\n");
    push_event_lines(&mut buf, output, units);
    push_opt_line(&mut buf, mail_config.append());
    proof {
        assert(views_of_strings(buf@) =~= lines);
    }
    join(&buf, "\n")
}

/// Builds the HTML report: the lines of [`spec_html_lines`], joined by
/// newlines.  `units` holds, for each event in order, the backend-formatted
/// text of its numeric fields.
pub fn make_html(
    mail_config: &Mail,
    upgradeable: &Vec<Upgradeable>,
    output: &Vec<ProgressOutput>,
    units: &Vec<UnitText>,
) -> (r: String)
    requires
        units@.len() == output@.len(),
        forall|k: int| 0 <= k < output@.len() ==> event_wf(#[trigger] output@[k]@),
    ensures
        r@ == spec_join(
            spec_html_lines(
                *mail_config,
                upgradeable@,
                output@.map_values(|ev: ProgressOutput| ev@),
                units@,
            ),
            "\n"@,
        ),
{
    let ghost events = output@.map_values(|ev: ProgressOutput| ev@);
    let ghost lines = spec_html_lines(*mail_config, upgradeable@, events, units@);
    let mut buf: Vec<String> = Vec::new();
    proof {
        assert(views_of_strings(buf@) =~= Seq::<Seq<char>>::empty());
    }
    push_line(&mut buf, "<!DOCTYPE html>\n    <html>\n    <head>\n    </head>\n    <body>");
    push_opt_line(&mut buf, mail_config.prepend());
    push_line(
        &mut buf,
        "        <h1>Packages</h1>\n        <table border=\"1\" rules=\"all\">\n            <tr>\n                <th>Package</th>\n                <th>Installed</th>\n                <th>Candidate</th>\n            </tr>",
    );
    push_pkg_lines(&mut buf, upgradeable, true);
    push_line(&mut buf, "        </table><h1>Output</h1><pre>");
    push_event_lines(&mut buf, output, units);
    push_line(&mut buf, "</pre>");
    push_opt_line(&mut buf, mail_config.append());
    push_line(&mut buf, "\n    </body>\n    </html>");
    proof {
        assert(views_of_strings(buf@) =~= lines);
    }
    join(&buf, "\n")
}

} // verus!
