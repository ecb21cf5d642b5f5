use rusty_vinnie::message_handler::{choose_reactions, VinnieEmoji};

#[test]
fn toad_mentions_get_the_toad() {
    // The pattern must match the lowercase form, so upper case counts too.
    assert_eq!(choose_reactions("ЖАБА!"), vec![VinnieEmoji::Jaba]);
    assert_eq!(choose_reactions("jabka"), vec![VinnieEmoji::Jaba]);
}

#[test]
fn impossible_mentions_get_nivazmojna() {
    assert_eq!(choose_reactions("Нивазможна"), vec![VinnieEmoji::Nivazmojna]);
    assert_eq!(choose_reactions("это невозможно"), vec![VinnieEmoji::Nivazmojna]);
}

#[test]
fn morning_and_caviar_reactions() {
    assert_eq!(choose_reactions("Доброе утро"), vec![VinnieEmoji::Utrechka]);
    assert_eq!(choose_reactions("баклажан"), vec![VinnieEmoji::Eggplant]);
}

#[test]
fn rust_mentions_draw_one_of_three() {
    for message in ["I love Rust", "краб", "🦀", "CRAB"] {
        let reactions = choose_reactions(message);
        assert_eq!(reactions.len(), 1, "for {:?}", message);
        assert!(
            matches!(
                reactions[0],
                VinnieEmoji::Zdruste | VinnieEmoji::Crab | VinnieEmoji::RustHappy
            ),
            "unexpected reaction for {:?}",
            message
        );
    }
}

#[test]
fn unrelated_messages_get_no_reaction() {
    assert!(choose_reactions("good evening").is_empty());
    assert!(choose_reactions("").is_empty());
}

#[test]
fn combined_mentions_keep_a_fixed_order() {
    assert_eq!(
        choose_reactions("жаба ест икру"),
        vec![VinnieEmoji::Jaba, VinnieEmoji::Eggplant]
    );
}

#[test]
fn emoji_identities() {
    assert_eq!(VinnieEmoji::Jaba.id(), (Some(637684829114204175), "jaba"));
    assert_eq!(VinnieEmoji::Crab.id(), (None, "🦀"));
    assert_eq!(VinnieEmoji::Utrechka.id(), (None, "🤓"));
}
