use guessing_game::arith::plus_one;
use guessing_game::largest::{largest, largest_ref};
use guessing_game::shapes::{Point, Rectangle};
use guessing_game::summary::{notification, NewsArticle, Summary, Tweet};
use guessing_game::user::new_user;

struct Teaser;

impl Summary for Teaser {}

#[test]
fn it_works() {
    let result = guessing_game::arith::add(2, 2);
    assert_eq!(result, 4);
}

#[test]
fn add_sums_up_to_the_limit() {
    assert_eq!(guessing_game::arith::add(0, 0), 0);
    assert_eq!(guessing_game::arith::add(usize::MAX - 1, 1), usize::MAX);
    assert_eq!(guessing_game::arith::add(40, 2), 42);
}

#[test]
fn plus_one_of_a_number() {
    assert_eq!(Some(6), plus_one(Some(5)));
    assert_eq!(Some(0), plus_one(Some(-1)));
    assert_eq!(Some(i32::MAX), plus_one(Some(i32::MAX - 1)));
    assert_eq!(Some(i32::MIN + 1), plus_one(Some(i32::MIN)));
}

#[test]
fn plus_one_of_nothing() {
    assert_eq!(None, plus_one(None));
}

#[test]
fn area_of_a_rectangle() {
    let rect = Rectangle { width: 30, height: 20 };
    assert_eq!(rect.area(), 600);
    assert_eq!(Rectangle { width: 0, height: 7 }.area(), 0);
    assert_eq!(Rectangle { width: 65535, height: 65537 }.area(), u32::MAX);
}

#[test]
fn default_rectangle_is_empty() {
    let rect: Rectangle = Default::default();
    assert_eq!(rect, Rectangle { width: 0, height: 0 });
    assert_eq!(rect.area(), 0);
}

#[test]
fn point_hands_out_its_coordinates() {
    let integer = Point { x: 5, y: 6 };
    assert_eq!(*integer.x(), 5);
    assert_eq!(*integer.y(), 6);
    let float = Point { x: 5.0, y: 4.0 };
    assert_eq!(*float.x(), 5.0);
    assert_eq!(*float.y(), 4.0);
    let text = Point { x: String::from("left"), y: String::from("right") };
    assert_eq!(text.x(), "left");
    assert_eq!(text.y(), "right");
}

#[test]
fn largest_of_integers() {
    let list = [1, 5, 3, 2, 0];
    assert_eq!(largest(&list), 5);
    assert_eq!(*largest_ref(&list), 5);
    assert_eq!(largest(&[7]), 7);
    assert_eq!(largest(&[-3, -1, -2]), -1);
    assert_eq!(largest(&[1, 2, 3, 4]), 4);
    assert_eq!(largest(&[4, 3, 2, 1]), 4);
}

#[test]
fn largest_of_floats() {
    let list = [1.0, 5.3, 2.5, 1.1, 0f64];
    assert_eq!(largest(&list), 5.3);
    assert_eq!(*largest_ref(&list), 5.3);
}

#[test]
fn largest_of_floats_skips_what_does_not_compare() {
    assert_eq!(largest(&[1.0, f64::NAN, 0.5]), 1.0);
    assert!(largest(&[f64::NAN, 2.0]).is_nan());
}

#[test]
fn largest_ref_keeps_the_first_of_equals() {
    let list = [(2, 'a'), (1, 'b'), (2, 'a')];
    let best = largest_ref(&list);
    assert!(std::ptr::eq(best, &list[0]));
    let words = [String::from("pear"), String::from("apple"), String::from("plum")];
    assert_eq!(largest_ref(&words), "plum");
}

#[test]
fn new_user_is_active() {
    let user = new_user(2u64, String::from("Huang"), String::from("123@qq.com"));
    assert_eq!(user.id, 2);
    assert_eq!(user.name, "Huang");
    assert_eq!(user.email, "123@qq.com");
    assert!(user.active);
}

#[test]
fn news_article_summary() {
    let news = NewsArticle {
        headline: String::from("Zheng Huang's paper got published"),
        location: String::from("China"),
        author: String::from("Unknown"),
        content: String::from("This is content of the news"),
        date: String::from("1-24-2023"),
    };
    assert_eq!(
        news.summarize(),
        "Zheng Huang's paper got published, by Unknown on 1-24-2023 (China)"
    );
    assert_eq!(
        notification(&news),
        "New news! Summary of the news: Zheng Huang's paper got published, by Unknown on 1-24-2023 (China)"
    );
}

#[test]
fn tweet_summary() {
    let tweet = Tweet {
        username: String::from("ferris"),
        content: String::from("hello, world"),
        reply: false,
        retweet: true,
    };
    assert_eq!(tweet.summarize(), "ferris: hello, world");
    assert_eq!(notification(&tweet), "New news! Summary of the news: ferris: hello, world");
}

#[test]
fn default_summary_invites_to_read_on() {
    assert_eq!(Teaser.summarize(), "Read more...");
    assert_eq!(notification(&Teaser), "New news! Summary of the news: Read more...");
}
