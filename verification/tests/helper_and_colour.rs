use splat_site::cliargs::{Cli, PortError, DEV_PORT, REL_PORT};
use splat_site::common::{docs, url_builder};
use splat_site::helper::{error_html, error_text, escape_html, SITE_URL};
use splat_site::rgb::{ColourError, Rgb};

#[test]
fn escape_html_escapes_the_four_characters() {
    assert_eq!(
        escape_html("a<b>&\"c\""),
        "a&lt;b&gt;&amp;&quot;c&quot;"
    );
}

#[test]
fn escape_html_keeps_plain_text() {
    assert_eq!(escape_html("武器抽選 'ok' 100%"), "武器抽選 'ok' 100%");
    assert_eq!(escape_html(""), "");
}

#[test]
fn escape_html_does_not_escape_twice() {
    assert_eq!(escape_html("&amp;"), "&amp;amp;");
}

#[test]
fn error_text_and_error_html() {
    assert_eq!(error_text(), "Internal server error");
    let r = error_html();
    assert_eq!(r.status, 500);
    assert_eq!(r.body, "Internal server error");
    assert_eq!(SITE_URL, "splat.site");
}

#[test]
fn static_pages_answer_ok() {
    let r = url_builder("<html>builder</html>");
    assert_eq!(r.status, 200);
    assert_eq!(r.body, "<html>builder</html>");
    let d = docs("<html>docs</html>");
    assert_eq!(d.status, 200);
    assert_eq!(d.body, "<html>docs</html>");
}

#[test]
fn rgb_written_upper_case() {
    assert_eq!(Rgb([0xff, 0xff, 0x10]).to_hex_string(), "#FFFF10");
    assert_eq!(Rgb([0, 10, 171]).to_hex_string(), "#000AAB");
    assert_eq!(String::from(Rgb([1, 2, 3])), "#010203");
    assert_eq!(Rgb::default().to_hex_string(), "#000000");
}

#[test]
fn rgb_read_from_six_hex_digits() {
    assert_eq!(Rgb::from_hex_str("ff0a10").unwrap().0, [255, 10, 16]);
    assert_eq!(Rgb::from_hex_str("FfA0b1").unwrap().0, [255, 160, 177]);
    assert_eq!(Rgb::from_hex_str("+f+a+1").unwrap().0, [15, 10, 1]);
}

#[test]
fn rgb_rejects_other_texts() {
    assert_eq!(Rgb::from_hex_str("12345").unwrap_err(), ColourError);
    assert_eq!(Rgb::from_hex_str("1234567").unwrap_err(), ColourError);
    assert_eq!(Rgb::from_hex_str("gg0000").unwrap_err(), ColourError);
    assert_eq!(Rgb::from_hex_str("#12345").unwrap_err(), ColourError);
    assert_eq!(Rgb::from_hex_str("++0000").unwrap_err(), ColourError);
    assert_eq!(Rgb::from_hex_str("-10000").unwrap_err(), ColourError);
    assert_eq!(Rgb::from_hex_str("").unwrap_err(), ColourError);
}

#[test]
fn rgb_round_trip() {
    for c in [[0u8, 0, 0], [255, 255, 255], [18, 52, 86], [0xab, 0xcd, 0xef]] {
        let written = Rgb(c).to_hex_string();
        assert_eq!(Rgb::from_hex_str(&written[1..]).unwrap().0, c);
    }
}

#[test]
fn port_of_the_build() {
    assert_eq!(DEV_PORT, 3000);
    assert_eq!(REL_PORT, 3001);
    assert_eq!(Cli { release: false }.candidate_port(), 3000);
    assert_eq!(Cli { release: true }.candidate_port(), 3001);
    assert_eq!(Cli { release: true }.port(false), Ok(3001));
    assert_eq!(Cli { release: false }.port(false), Ok(3000));
}

#[test]
fn port_refused_when_reachable() {
    let e = Cli { release: true }.port(true).unwrap_err();
    assert_eq!(e, PortError { port: 3001 });
    assert_eq!(e.message(), "`3001` is invalid port.");
    assert_eq!(PortError { port: 7 }.message(), "`7` is invalid port.");
}
