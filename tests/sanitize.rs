use relay_bot::relay::prepare_reply;
use relay_bot::sanitize::clean_ai_response;

#[test]
fn narrator_example() {
    assert_eq!(clean_ai_response("[Narrator] Hello! *waves* there   friend"), "Hello");
}

#[test]
fn bot_example() {
    assert_eq!(clean_ai_response("[Bot] Sure!! *nods* Yes."), "Sure.");
}

#[test]
fn tag_with_punctuation_after() {
    assert_eq!(clean_ai_response("[Bot] ,.- Fine then."), "Fine then.");
    assert_eq!(clean_ai_response("[Bot]: Fine"), ": Fine");
}

#[test]
fn only_leading_tag_is_stripped() {
    assert_eq!(clean_ai_response("Hi [x] there"), "Hi [x] there");
}

#[test]
fn tag_needs_word_characters() {
    assert_eq!(clean_ai_response("[] hi"), "[] hi");
    assert_eq!(clean_ai_response("[a b] hi"), "[a b] hi");
    assert_eq!(clean_ai_response("[Bot_1] hi"), "hi");
}

#[test]
fn whitespace_is_collapsed_and_trimmed() {
    assert_eq!(clean_ai_response("  a   b \n  c "), "a b\nc");
    assert_eq!(clean_ai_response("x \n\n y"), "x\ny");
    assert_eq!(clean_ai_response("x\t\t y"), "x y");
    assert_eq!(clean_ai_response("a\nb"), "a\nb");
    assert_eq!(clean_ai_response("a\tb"), "a\tb");
}

#[test]
fn leading_punctuation_is_stripped() {
    assert_eq!(clean_ai_response("...hello"), "hello");
    assert_eq!(clean_ai_response("\u{2013} hello"), "hello");
}

#[test]
fn action_runs_to_sentence_end() {
    assert_eq!(clean_ai_response("Okay! grins. Next? yes"), "Okay. Next? yes");
    assert_eq!(clean_ai_response("!wave"), "");
}

#[test]
fn cleaning_twice_differs_when_a_tag_surfaces() {
    let once = clean_ai_response("..., [Tag] text");
    assert_eq!(once, "[Tag] text");
    assert_eq!(clean_ai_response(&once), "text");
}

#[test]
fn empty_input() {
    assert_eq!(clean_ai_response(""), "");
}

#[test]
fn cleaning_twice_changes_nothing() {
    let samples = [
        "[Narrator] Hello! *waves* there   friend",
        "[Bot] Sure!! *nods* Yes.",
        "  [x] a  \n  b ",
        "..., [Tag] text",
        "Hello\n\n  world!  bye. ok",
        "plain text",
    ];
    for s in samples.iter() {
        let once = clean_ai_response(s);
        if once.starts_with('[') {
            continue;
        }
        assert_eq!(clean_ai_response(&once), once, "input {:?}", s);
    }
}

#[test]
fn blank_reply_gets_placeholder() {
    assert_eq!(prepare_reply("   "), "The chatbot returned nothing.");
    assert_eq!(prepare_reply(""), "The chatbot returned nothing.");
    assert_eq!(prepare_reply("  [Bot] Sure!! *nods* Yes.  "), "Sure.");
    assert_eq!(prepare_reply("!wave"), "The chatbot returned nothing.");
}
