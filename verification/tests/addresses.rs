use simplemm::parse_mail::{addresses_found, get_addresses_in_from_header};

#[test]
fn parse_mails() {
    assert_eq!(
        get_addresses_in_from_header(
            "foo@bar, Frank Rotzelpü <frank@göckel.com>, Murkel <\"my murkel\"@localhost"
        ),
        vec!("foo@bar", "frank@göckel.com", "\"my murkel\"@localhost")
    );
}

#[test]
fn addresses_are_found_in_order() {
    assert_eq!(
        get_addresses_in_from_header("foo@bar, Frank R. <frank@x.com>, M <\"my m\"@host>"),
        vec!["foo@bar", "frank@x.com", "\"my m\"@host"]
    );
}

#[test]
fn text_without_address_gives_none() {
    assert!(get_addresses_in_from_header("no addresses here").is_empty());
    assert!(get_addresses_in_from_header("").is_empty());
}

#[test]
fn every_address_is_a_stretch_of_the_header() {
    let header = "a@b.com, \"q p\"@c.com, <x@y>";
    let addresses = get_addresses_in_from_header(header);
    assert_eq!(addresses, vec!["a@b.com", "\"q p\"@c.com", "x@y"]);
    for address in &addresses {
        assert!(header.contains(address.as_str()));
    }
}

#[test]
fn a_search_that_could_not_be_made_gives_no_address() {
    assert!(addresses_found(None).is_empty());
    assert_eq!(
        addresses_found(Some(vec!["a@b".to_string(), "c@d".to_string()])),
        vec!["a@b", "c@d"]
    );
}

#[test]
fn an_address_written_twice_is_found_twice() {
    assert_eq!(
        get_addresses_in_from_header("a@b.com, A <a@b.com>, c@d.org"),
        vec!["a@b.com", "a@b.com", "c@d.org"]
    );
}

#[test]
fn addresses_follow_one_another_in_the_header() {
    let header = "x@y z@w, \"a b\"@c <d@e>";
    let addresses = get_addresses_in_from_header(header);
    assert_eq!(addresses, vec!["x@y", "z@w", "\"a b\"@c", "d@e"]);
    let mut from = 0;
    for address in &addresses {
        let at = header[from..].find(address.as_str()).map(|offset| offset + from);
        assert!(at.is_some());
        from = at.unwrap_or(from) + address.len();
    }
}
