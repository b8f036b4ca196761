use jade::compose_verification;

#[test]
fn verification_mail_for_a_new_user() {
    let m = compose_verification(
        &String::from("mail.example.org"),
        &String::from("alice"),
        &String::from("a@x.com"),
        &String::from("TOKEN"),
        false,
    );
    assert_eq!(m.from, "Jade <noreply@mail.example.org>");
    assert_eq!(m.to, "alice <a@x.com>");
    assert_eq!(m.subject, "Confirm your email address, alice.");
    assert_eq!(
        m.body,
        "Please copy and paste this link into your browser to confirm your email address: mail.example.org/email/verify/TOKEN"
    );
}

#[test]
fn verification_mail_for_a_changed_address() {
    let m = compose_verification(
        &String::from("mail.example.org"),
        &String::from("alice"),
        &String::from("new@x.com"),
        &String::from("T2"),
        true,
    );
    assert_eq!(m.from, "Jade <noreply@mail.example.org>");
    assert_eq!(m.to, "alice <new@x.com>");
    assert_eq!(m.subject, "Confirm your new email address, alice.");
    assert_eq!(
        m.body,
        "Please copy and paste this link into your browser to confirm your email address: mail.example.org/email/verify/T2"
    );
}
