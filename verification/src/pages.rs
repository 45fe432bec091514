//! The pages of the application, as markup trees.
//!
//! Each page is a function from the data it shows to a tree. What the caller
//! typed or stored reaches the page as text nodes, which the renderer
//! escapes, or as attribute values, which it writes as they are. The pages
//! take what they put into attribute values as trusted: the names of earlier
//! sets and the secret as the values of inputs, and the identifiers of sets.

use crate::error::Error;
use crate::markup::{
    doctype, doctype_view, fragment, lemma_nodes_view_push, nodes_view, number, number_view,
    render as rendered, tag, text, Markup, MarkupNode, Tag, TagView,
};
use crate::model::{
    now, ExerciseSet, ExerciseSetView, LoginForm, LoginFormView, SetForm, SetFormView, User,
    UserView,
};
use crate::response::{res, Responder, ResponderView};
use crate::route::{route_path, Route};
use crate::text::{decimal, u64_to_string};
use vstd::prelude::*;

verus! {

/// The classes of the main button.
pub const BUTTON_CLASS: &'static str =
    "flex rounded-md bg-orange-500 active:bg-orange-700 text-white p-4 items-center justify-center uppercase w-full";

/// The classes of a small button.
pub const SMALL_BUTTON_CLASS: &'static str =
    "rounded-md bg-transparent border dark:border-gray-700 border-gray-300 text-white px-3 py-1";

/// The classes of an input.
pub const INPUT_CLASS: &'static str =
    "block w-full rounded-md border-0 px-2 py-4 dark:bg-gray-700 dark:text-white light:text-gray-900 outline-0 focus:outline-0 focus:ring-0 focus-visible:outline-0 focus:outline-none placeholder:text-gray-400";

/// The classes of the navigation bar.
pub const NAV_CLASS: &'static str =
    "text-center lg:max-w-md w-full dark:bg-gray-800 bg-gray-300 lg:bg-transparent lg:dark:bg-transparent flex lg:mx-auto justify-around items-center lg:py-6 py-2 absolute bottom-0 lg:bottom-auto lg:relative";

/// The classes of a link of the navigation bar.
pub const NAV_LINK_CLASS: &'static str = "flex flex-col text-center justify-center items-center";

/// The classes of the link to the current route.
pub const NAV_LINK_CURRENT_CLASS: &'static str =
    "flex flex-col text-center justify-center items-center text-orange-500";

/// The classes of the notice that shows a secret.
pub const NOTICE_CLASS: &'static str =
    "bg-gray-300 dark:bg-gray-800 p-4 rounded-md flex flex-col gap-3";

/// Where the style sheet is served.
pub const TAILWIND_PATH: &'static str = "/static/tailwind.css";

/// Where the navigation script is served.
pub const HTMX_PATH: &'static str = "/static/htmx.js";

/// Where the script that posts forms as JSON is served.
pub const JSON_ENC_PATH: &'static str = "/static/json-enc.js";

/// Where the script that loads links ahead is served.
pub const PRELOAD_PATH: &'static str = "/static/preload.js";

/// The icon of the link that adds a set.
pub const PLUS_CIRCLE_ICON: &'static str = r#"
            <svg xmlns="http://www.w3.org/2000/svg" fill="none" viewBox="0 0 24 24" stroke-width="1.5" stroke="currentColor" data-slot="icon" class="w-6 h-6">
              <path stroke-linecap="round" stroke-linejoin="round" d="M12 9v6m3-3H9m12 0a9 9 0 1 1-18 0 9 9 0 0 1 18 0Z" />
            </svg>
        "#;

/// The icon of the link to the list of sets.
pub const LIST_ICON: &'static str = r#"<svg xmlns="http://www.w3.org/2000/svg" fill="none" viewBox="0 0 24 24" stroke-width="1.5" stroke="currentColor" data-slot="icon" class="w-6 h-6">
  <path stroke-linecap="round" stroke-linejoin="round" d="M8.25 6.75h12M8.25 12h12m-12 5.25h12M3.75 6.75h.007v.008H3.75V6.75Zm.375 0a.375.375 0 1 1-.75 0 .375.375 0 0 1 .75 0ZM3.75 12h.007v.008H3.75V12Zm.375 0a.375.375 0 1 1-.75 0 .375.375 0 0 1 .75 0Zm-.375 5.25h.007v.008H3.75v-.008Zm.375 0a.375.375 0 1 1-.75 0 .375.375 0 0 1 .75 0Z" />
</svg>
"#;

/// The icon of the link to the profile.
pub const USER_CIRCLE_ICON: &'static str = r#"<svg xmlns="http://www.w3.org/2000/svg" fill="none" viewBox="0 0 24 24" stroke-width="1.5" stroke="currentColor" data-slot="icon" class="w-6 h-6">
  <path stroke-linecap="round" stroke-linejoin="round" d="M17.982 18.725A7.488 7.488 0 0 0 12 15.75a7.488 7.488 0 0 0-5.982 2.975m11.963 0a9 9 0 1 0-11.963 0m11.963 0A8.966 8.966 0 0 1 12 21a8.966 8.966 0 0 1-5.982-2.275M15 9.75a3 3 0 1 1-6 0 3 3 0 0 1 6 0Z" />
</svg>
"#;

/// The seconds of a year of 365 days.
pub const YEAR: u64 = 31_536_000;

/// The seconds of a month of thirty days.
pub const MONTH: u64 = 2_592_000;

/// The seconds of a day.
pub const DAY: u64 = 86_400;

/// The seconds of an hour.
pub const HOUR: u64 = 3600;

/// The seconds of a minute.
pub const MINUTE: u64 = 60;

/// For how many seconds after signing up a user is shown their secret.
pub const NOTICE_SECONDS: u64 = 60;

/// The views of a run of strings, in order.
pub open spec fn strings_view(strings: Seq<String>) -> Seq<Seq<char>> {
    Seq::new(strings.len(), |i: int| strings[i]@)
}

/// The views of a run of sets, in order.
pub open spec fn sets_view(sets: Seq<ExerciseSet>) -> Seq<ExerciseSetView> {
    Seq::new(sets.len(), |i: int| sets[i]@)
}

/// An element named `name`, so far without attributes or children.
pub open spec fn el(name: Seq<char>) -> TagView {
    TagView::named(name)
}

/// The markup of [`render_if`].
pub open spec fn render_if_view(is_true: bool, part: Markup) -> Markup {
    Markup::Raw(
        if is_true {
            rendered(part)
        } else {
            Seq::empty()
        },
    )
}

/// The render of `part` where `is_true` holds, and nothing where it does
/// not.
pub fn render_if(is_true: bool, part: MarkupNode) -> (node: MarkupNode)
    ensures
        node@ == render_if_view(is_true, part@),
{
    if is_true {
        MarkupNode::Raw(part.render_to_string())
    } else {
        MarkupNode::Raw(String::new())
    }
}

/// The seconds from `then` to `now`; none where `then` lies ahead.
pub open spec fn elapsed_since(now: u64, then: u64) -> u64 {
    if then <= now {
        (now - then) as u64
    } else {
        0
    }
}

/// How long ago something happened, in the largest unit that has passed at
/// least once: years, months of thirty days, days, hours, minutes, else
/// seconds. Months and minutes share the letter `m`.
pub open spec fn time_ago_text(elapsed: nat) -> Seq<char> {
    if elapsed / (YEAR as nat) > 0 {
        decimal(elapsed / (YEAR as nat)) + "y ago"@
    } else if elapsed / (MONTH as nat) > 0 {
        decimal(elapsed / (MONTH as nat)) + "m ago"@
    } else if elapsed / (DAY as nat) > 0 {
        decimal(elapsed / (DAY as nat)) + "d ago"@
    } else if elapsed / (HOUR as nat) > 0 {
        decimal(elapsed / (HOUR as nat)) + "h ago"@
    } else if elapsed / (MINUTE as nat) > 0 {
        decimal(elapsed / (MINUTE as nat)) + "m ago"@
    } else {
        decimal(elapsed) + "s ago"@
    }
}

/// The seconds from `seconds` to `now`; none where `seconds` lies ahead.
pub fn seconds_ago_at(now: u64, seconds: u64) -> (elapsed: u64)
    ensures
        elapsed == elapsed_since(now, seconds),
{
    if seconds <= now {
        now - seconds
    } else {
        0
    }
}

/// The seconds from `seconds` to the current time.
pub fn seconds_ago(seconds: u64) -> (elapsed: u64)
    ensures
        exists|now: u64| elapsed == elapsed_since(now, seconds),
{
    let now = now();
    seconds_ago_at(now, seconds)
}

/// The label for something that happened `elapsed` seconds ago.
pub fn time_ago_string(elapsed: u64) -> (s: String)
    ensures
        s@ == time_ago_text(elapsed as nat),
{
    let mut s: String;
    if elapsed / YEAR > 0 {
        s = u64_to_string(elapsed / YEAR);
        s.append("y ago");
    } else if elapsed / MONTH > 0 {
        s = u64_to_string(elapsed / MONTH);
        s.append("m ago");
    } else if elapsed / DAY > 0 {
        s = u64_to_string(elapsed / DAY);
        s.append("d ago");
    } else if elapsed / HOUR > 0 {
        s = u64_to_string(elapsed / HOUR);
        s.append("h ago");
    } else if elapsed / MINUTE > 0 {
        s = u64_to_string(elapsed / MINUTE);
        s.append("m ago");
    } else {
        s = u64_to_string(elapsed);
        s.append("s ago");
    }
    s
}

/// The markup of [`time_ago_at`].
pub open spec fn time_ago_view(now: u64, seconds: u64) -> Markup {
    Markup::Text(time_ago_text(elapsed_since(now, seconds) as nat))
}

/// How long before `now` the moment `seconds` was.
pub fn time_ago_at(now: u64, seconds: u64) -> (node: MarkupNode)
    ensures
        node@ == time_ago_view(now, seconds),
{
    MarkupNode::Text(time_ago_string(seconds_ago_at(now, seconds)))
}

/// How long ago the moment `seconds` was.
pub fn time_ago(seconds: u64) -> (node: MarkupNode)
    ensures
        exists|now: u64| node@ == time_ago_view(now, seconds),
{
    let now = now();
    time_ago_at(now, seconds)
}

/// The markup of [`hidden_input`].
pub open spec fn hidden_input_view() -> TagView {
    el("input"@).type_("hidden"@)
}

/// An input that is not shown.
pub fn hidden_input() -> (t: Tag)
    ensures
        t@ == hidden_input_view(),
{
    tag("input").type_("hidden")
}

/// The markup of [`small_button`].
pub open spec fn small_button_view() -> TagView {
    el("button"@).class(SMALL_BUTTON_CLASS@)
}

/// A small button with an outline.
pub fn small_button() -> (t: Tag)
    ensures
        t@ == small_button_view(),
{
    tag("button").class(SMALL_BUTTON_CLASS)
}

/// The markup of [`link_button`].
pub open spec fn link_button_view() -> TagView {
    el("a"@).class(BUTTON_CLASS@)
}

/// A link that looks like the application's main button.
pub fn link_button() -> (t: Tag)
    ensures
        t@ == link_button_view(),
{
    tag("a").class(BUTTON_CLASS)
}

/// The markup of [`button`].
pub open spec fn button_view() -> TagView {
    el("button"@).class(BUTTON_CLASS@)
}

/// The application's main button.
pub fn button() -> (t: Tag)
    ensures
        t@ == button_view(),
{
    tag("button").class(BUTTON_CLASS)
}

/// The markup of [`form`].
pub open spec fn form_view(route: Route) -> TagView {
    el("form"@).method("post"@).action(route_path(route))
}

/// A form that posts to `route`.
pub fn form(route: Route) -> (t: Tag)
    ensures
        t@ == form_view(route),
{
    tag("form").method("post").action(route.path())
}

/// The markup of [`label`].
pub open spec fn label_view(name: Seq<char>) -> Markup {
    el("label"@).class("flex flex-col gap-1"@).for_(name).text(name).node()
}

/// The label of the input named `name`.
pub fn label(name: &str) -> (node: MarkupNode)
    ensures
        node@ == label_view(name@),
{
    tag("label").class("flex flex-col gap-1").for_(name).text(name).node()
}

/// The markup of [`text_input`].
pub open spec fn text_input_view() -> TagView {
    el("input"@).class(INPUT_CLASS@).type_("text"@)
}

/// A one-line text input.
pub fn text_input() -> (t: Tag)
    ensures
        t@ == text_input_view(),
{
    tag("input").class(INPUT_CLASS).type_("text")
}

/// The markup of [`number_input`].
pub open spec fn number_input_view(name: Seq<char>, value: usize) -> Markup {
    el("input"@).class(INPUT_CLASS@).type_("number"@).name(name).value(
        decimal(value as nat),
    ).node()
}

/// A number input named `name` that shows `value`.
pub fn number_input(name: &str, value: usize) -> (node: MarkupNode)
    ensures
        node@ == number_input_view(name@, value),
{
    let shown = u64_to_string(value as u64);
    tag("input").class(INPUT_CLASS).type_("number").name(name).value(shown.as_str()).node()
}

/// The choices of a suggestion list: one `option` per entry.
pub open spec fn options_view(options: Seq<Seq<char>>) -> Seq<Markup> {
    Seq::new(options.len(), |i: int| el("option"@).value(options[i]).node())
}

/// One `option` element for each of `options`, in order.
pub fn option_tags(options: &Vec<String>) -> (nodes: Vec<MarkupNode>)
    ensures
        nodes_view(nodes@) == options_view(strings_view(options@)),
{
    let mut nodes: Vec<MarkupNode> = Vec::new();
    let ghost all = strings_view(options@);
    assert(nodes_view(nodes@) =~= options_view(all.take(0)));
    for i in 0..options.len()
        invariant
            all == strings_view(options@),
            nodes_view(nodes@) == options_view(all.take(i as int)),
    {
        let node = tag("option").value(options[i].as_str()).node();
        proof {
            lemma_nodes_view_push(nodes@, node);
            assert(options_view(all.take(i + 1)) =~= options_view(all.take(i as int)).push(
                node@,
            ));
        }
        nodes.push(node);
    }
    assert(all.take(options.len() as int) =~= all);
    nodes
}

/// The markup of [`suggest_input`].
pub open spec fn suggest_input_view(
    name: Seq<char>,
    options: Seq<Seq<char>>,
    value: Seq<char>,
    autofocus: bool,
) -> Markup {
    let list = name + "_list"@;
    let input = text_input_view().name(name).value(value).id(name).attr("list"@, list);
    let input = if autofocus {
        input.attr("autofocus"@, "autofocus"@)
    } else {
        input
    };
    Markup::Fragment(
        seq![input.node(), el("datalist"@).id(list).children(options_view(options)).node()],
    )
}

/// A text input named `name` that suggests `options` while the user types.
/// `value` and `options` become attribute values and are taken as trusted.
pub fn suggest_input(name: &str, options: Vec<String>, value: String, autofocus: bool) -> (node:
    MarkupNode)
    ensures
        node@ == suggest_input_view(name@, strings_view(options@), value@, autofocus),
{
    let mut list = String::from_str(name);
    list.append("_list");
    let mut input = text_input().name(name).value(value.as_str()).id(name).attr(
        "list",
        list.as_str(),
    );
    if autofocus {
        input = input.attr("autofocus", "autofocus");
    }
    let datalist = tag("datalist").id(list.as_str()).children(option_tags(&options));
    let mut nodes: Vec<MarkupNode> = Vec::new();
    let first = input.node();
    let second = datalist.node();
    proof {
        lemma_nodes_view_push(nodes@, first);
        lemma_nodes_view_push(nodes@.push(first), second);
        assert(Seq::<Markup>::empty() + options_view(strings_view(options@)) =~= options_view(
            strings_view(options@),
        ));
        assert(nodes_view(nodes@.push(first).push(second)) =~= seq![first@, second@]);
    }
    nodes.push(first);
    nodes.push(second);
    fragment(nodes)
}

/// The markup of [`set_form_part`].
pub open spec fn set_form_part_view(names: Seq<Seq<char>>, set_form: SetFormView) -> Markup {
    form_view(Route::CreateSet).class("flex flex-col px-4 lg:px-0 pt-4 gap-4"@).child(
        el("div"@).child(label_view("exercise"@)).child(
            suggest_input_view("name"@, names, set_form.name, true),
        ).node(),
    ).child(
        el("div"@).class("flex gap-4"@).child(
            el("div"@).class("w-full"@).child(label_view("reps"@)).child(
                number_input_view("reps"@, set_form.reps),
            ).node(),
        ).child(
            el("div"@).class("w-full"@).child(label_view("weight"@)).child(
                number_input_view("weight"@, set_form.weight),
            ).node(),
        ).node(),
    ).child(button_view().text("save your set"@).node()).node()
}

/// The form that logs a set: the exercise with suggestions from `names`,
/// repetitions and weight.
pub fn set_form_part(names: Vec<String>, set_form: SetForm) -> (node: MarkupNode)
    ensures
        node@ == set_form_part_view(strings_view(names@), set_form@),
{
    let SetForm { name, reps, weight } = set_form;
    form(Route::CreateSet).class("flex flex-col px-4 lg:px-0 pt-4 gap-4").child(
        tag("div").child(label("exercise")).child(suggest_input("name", names, name, true)).node(),
    ).child(
        tag("div").class("flex gap-4").child(
            tag("div").class("w-full").child(label("reps")).child(
                number_input("reps", reps),
            ).node(),
        ).child(
            tag("div").class("w-full").child(label("weight")).child(
                number_input("weight", weight),
            ).node(),
        ).node(),
    ).child(button().text("save your set").node()).node()
}

/// The markup of [`root_part`].
pub open spec fn root_part_view(is_logged_in: bool, names: Seq<Seq<char>>, set_form: SetFormView) -> Markup {
    el("div"@).class("flex flex-col gap-8"@).child(
        el("h1"@).class("text-2xl text-center"@).text("u lift bro?"@).node(),
    ).child(set_form_part_view(names, set_form)).child(
        render_if_view(
            !is_logged_in,
            el("a"@).class("text-center"@).href(route_path(Route::LoginForm)).text(
                "Already have an account?"@,
            ).node(),
        ),
    ).node()
}

/// The start page: the form that logs a set and, for a caller who is not
/// logged in, a link to the login page.
pub fn root_part(is_logged_in: &bool, names: Vec<String>, set_form: SetForm) -> (node: MarkupNode)
    ensures
        node@ == root_part_view(*is_logged_in, strings_view(names@), set_form@),
{
    tag("div").class("flex flex-col gap-8").child(
        tag("h1").class("text-2xl text-center").text("u lift bro?").node(),
    ).child(set_form_part(names, set_form)).child(
        render_if(
            !*is_logged_in,
            tag("a").class("text-center").href(Route::LoginForm.path()).text(
                "Already have an account?",
            ).node(),
        ),
    ).node()
}

/// The markup of [`set_li_at`].
pub open spec fn set_li_view(now: u64, set: ExerciseSetView) -> Markup {
    el("li"@).class("flex justify-between"@).child(
        el("div"@).class("flex flex-col gap-1 py-5"@).child(
            el("div"@).class("font-bold"@).text(set.name).node(),
        ).child(
            el("div"@).class("flex gap-4 dark:text-gray-400 text-gray-300"@).child(
                render_if_view(
                    set.weight != 0,
                    el("span"@).child(number_view(set.weight as nat)).text(" lbs"@).node(),
                ),
            ).child(el("span"@).child(number_view(set.reps as nat)).text(" reps"@).node()).child(
                time_ago_view(now, set.created_at),
            ).node(),
        ).node(),
    ).child(
        form_view(Route::DeleteSet).class("flex justify-center items-center"@).child(
            hidden_input_view().name("id"@).value(set.id).node(),
        ).child(small_button_view().text("Delete"@).node()).node(),
    ).node()
}

/// One logged set as a list item, as seen at the time `now`: its name, its
/// weight unless that is zero, its repetitions, how long ago it was logged,
/// and a button that deletes it. The name is text; the identifier becomes an
/// attribute value and is taken as trusted.
pub fn set_li_at(now: u64, set: &ExerciseSet) -> (node: MarkupNode)
    ensures
        node@ == set_li_view(now, set@),
{
    tag("li").class("flex justify-between").child(
        tag("div").class("flex flex-col gap-1 py-5").child(
            tag("div").class("font-bold").text(set.name.as_str()).node(),
        ).child(
            tag("div").class("flex gap-4 dark:text-gray-400 text-gray-300").child(
                render_if(
                    set.weight != 0,
                    tag("span").child(number(set.weight as u64)).text(" lbs").node(),
                ),
            ).child(tag("span").child(number(set.reps as u64)).text(" reps").node()).child(
                time_ago_at(now, set.created_at),
            ).node(),
        ).node(),
    ).child(
        form(Route::DeleteSet).class("flex justify-center items-center").child(
            hidden_input().name("id").value(set.id.as_str()).node(),
        ).child(small_button().text("Delete").node()).node(),
    ).node()
}

/// One logged set as a list item, as seen now.
pub fn set_li(set: ExerciseSet) -> (node: MarkupNode)
    ensures
        exists|now: u64| node@ == set_li_view(now, set@),
{
    let now = now();
    set_li_at(now, &set)
}

/// The list items of a run of sets, as seen at the time `now`.
pub open spec fn set_items_view(now: u64, sets: Seq<ExerciseSetView>) -> Seq<Markup> {
    Seq::new(sets.len(), |i: int| set_li_view(now, sets[i]))
}

/// One list item for each of `sets`, in order.
pub fn set_items(now: u64, sets: &Vec<ExerciseSet>) -> (nodes: Vec<MarkupNode>)
    ensures
        nodes_view(nodes@) == set_items_view(now, sets_view(sets@)),
{
    let mut nodes: Vec<MarkupNode> = Vec::new();
    let ghost all = sets_view(sets@);
    assert(nodes_view(nodes@) =~= set_items_view(now, all.take(0)));
    for i in 0..sets.len()
        invariant
            all == sets_view(sets@),
            nodes_view(nodes@) == set_items_view(now, all.take(i as int)),
    {
        let node = set_li_at(now, &sets[i]);
        proof {
            lemma_nodes_view_push(nodes@, node);
            assert(set_items_view(now, all.take(i + 1)) =~= set_items_view(
                now,
                all.take(i as int),
            ).push(node@));
        }
        nodes.push(node);
    }
    assert(all.take(sets.len() as int) =~= all);
    nodes
}

/// The notice that shows a new user their secret.
pub open spec fn secret_notice_view(secret: Seq<char>) -> Markup {
    el("div"@).class(NOTICE_CLASS@).child(
        el("div"@).class("flex flex-col gap-1"@).child(
            el("p"@).text("this is your secret"@).node(),
        ).child(el("p"@).class("font-bold"@).text(secret).node()).child(
            el("p"@).text("it's the only way to log back in, don't lose it!"@).node(),
        ).child(
            el("span"@).child(el("span"@).text("you can always see your secret in "@).node()).child(
                el("a"@).class("underline"@).href(route_path(Route::Profile)).text(
                    "profile"@,
                ).node(),
            ).node(),
        ).node(),
    ).child(el("p"@).text("this message will self-destruct in 60s"@).node()).node()
}

/// The notice that shows a new user their secret.
pub fn secret_notice(secret: &str) -> (node: MarkupNode)
    ensures
        node@ == secret_notice_view(secret@),
{
    tag("div").class(NOTICE_CLASS).child(
        tag("div").class("flex flex-col gap-1").child(
            tag("p").text("this is your secret").node(),
        ).child(tag("p").class("font-bold").text(secret).node()).child(
            tag("p").text("it's the only way to log back in, don't lose it!").node(),
        ).child(
            tag("span").child(tag("span").text("you can always see your secret in ").node()).child(
                tag("a").class("underline").href(Route::Profile.path()).text("profile").node(),
            ).node(),
        ).node(),
    ).child(tag("p").text("this message will self-destruct in 60s").node()).node()
}

/// The markup of [`set_list_part_at`].
pub open spec fn set_list_part_view(now: u64, user: UserView, sets: Seq<ExerciseSetView>) -> Markup {
    el("div"@).class("px-4 lg:px-0 flex flex-col gap-4"@).child(
        el("h1"@).class("text-2xl text-center"@).text("Sets"@).node(),
    ).child(
        render_if_view(
            elapsed_since(now, user.created_at) < NOTICE_SECONDS,
            secret_notice_view(user.secret),
        ),
    ).child(
        el("ul"@).class("divide-y divide-gray-100 dark:divide-gray-800"@).children(
            set_items_view(now, sets),
        ).node(),
    ).child(
        el("div"@).class("invisible lg:visible"@).child(
            link_button_view().href(route_path(Route::Root)).text("start another set"@).node(),
        ).node(),
    ).node()
}

/// The page that lists a user's sets, as seen at the time `now`. A user who
/// signed up less than a minute before is also shown their secret.
pub fn set_list_part_at(now: u64, user: User, sets: Vec<ExerciseSet>) -> (node: MarkupNode)
    ensures
        node@ == set_list_part_view(now, user@, sets_view(sets@)),
{
    proof {
        assert(Seq::<Markup>::empty() + set_items_view(now, sets_view(sets@)) =~= set_items_view(
            now,
            sets_view(sets@),
        ));
    }
    tag("div").class("px-4 lg:px-0 flex flex-col gap-4").child(
        tag("h1").class("text-2xl text-center").text("Sets").node(),
    ).child(
        render_if(
            seconds_ago_at(now, user.created_at) < NOTICE_SECONDS,
            secret_notice(user.secret.as_str()),
        ),
    ).child(
        tag("ul").class("divide-y divide-gray-100 dark:divide-gray-800").children(
            set_items(now, &sets),
        ).node(),
    ).child(
        tag("div").class("invisible lg:visible").child(
            link_button().href(Route::Root.path()).text("start another set").node(),
        ).node(),
    ).node()
}

/// The page that lists a user's sets, as seen now.
pub fn set_list_part(user: User, sets: Vec<ExerciseSet>) -> (node: MarkupNode)
    ensures
        exists|now: u64| node@ == set_list_part_view(now, user@, sets_view(sets@)),
{
    let now = now();
    set_list_part_at(now, user, sets)
}

/// The markup of [`head`].
pub open spec fn head_view() -> Markup {
    el("head"@).child(el("link"@).href(TAILWIND_PATH@).rel("stylesheet"@).node()).child(
        el("script"@).src(HTMX_PATH@).defer().node(),
    ).child(el("script"@).src(JSON_ENC_PATH@).defer().node()).child(
        el("script"@).src(PRELOAD_PATH@).defer().node(),
    ).child(el("meta"@).charset("UTF-8"@).node()).child(
        el("meta"@).content("text/html; charset=utf-8"@).attr(
            "http-equiv"@,
            "Content-Type"@,
        ).node(),
    ).child(
        el("meta"@).name("viewport"@).content(
            "width=device-width, initial-scale=1, user-scalable=no"@,
        ).node(),
    ).node()
}

/// The head of every page: the style sheet, the scripts and the meta tags.
pub fn head() -> (node: MarkupNode)
    ensures
        node@ == head_view(),
{
    tag("head").child(tag("link").href(TAILWIND_PATH).rel("stylesheet").node()).child(
        tag("script").src(HTMX_PATH).defer().node(),
    ).child(tag("script").src(JSON_ENC_PATH).defer().node()).child(
        tag("script").src(PRELOAD_PATH).defer().node(),
    ).child(tag("meta").charset("UTF-8").node()).child(
        tag("meta").content("text/html; charset=utf-8").attr("http-equiv", "Content-Type").node(),
    ).child(
        tag("meta").name("viewport").content(
            "width=device-width, initial-scale=1, user-scalable=no",
        ).node(),
    ).node()
}

/// The icon of the link that adds a set.
pub fn plus_circle_icon() -> (node: MarkupNode)
    ensures
        node@ == Markup::Raw(PLUS_CIRCLE_ICON@),
{
    MarkupNode::Raw(String::from_str(PLUS_CIRCLE_ICON))
}

/// The icon of the link to the list of sets.
pub fn list_icon() -> (node: MarkupNode)
    ensures
        node@ == Markup::Raw(LIST_ICON@),
{
    MarkupNode::Raw(String::from_str(LIST_ICON))
}

/// The icon of the link to the profile.
pub fn user_circle_icon() -> (node: MarkupNode)
    ensures
        node@ == Markup::Raw(USER_CIRCLE_ICON@),
{
    MarkupNode::Raw(String::from_str(USER_CIRCLE_ICON))
}

/// The markup of [`nav_link`].
pub open spec fn nav_link_view(route: Route, current_route: Route, icon: Markup, s: Seq<char>) -> Markup {
    el("a"@).class(
        if route == current_route {
            NAV_LINK_CURRENT_CLASS@
        } else {
            NAV_LINK_CLASS@
        },
    ).attr1("preload"@).href(route_path(route)).child(
        el("span"@).class("visible lg:invisible"@).child(icon).node(),
    ).child(el("span"@).text(s).node()).node()
}

/// One link of the navigation bar; the link to the current route stands
/// out.
pub fn nav_link(route: Route, current_route: Route, icon: MarkupNode, s: &str) -> (node: MarkupNode)
    ensures
        node@ == nav_link_view(route, current_route, icon@, s@),
{
    let class = if route == current_route {
        NAV_LINK_CURRENT_CLASS
    } else {
        NAV_LINK_CLASS
    };
    tag("a").class(class).attr1("preload").href(route.path()).child(
        tag("span").class("visible lg:invisible").child(icon).node(),
    ).child(tag("span").text(s).node()).node()
}

/// The markup of [`nav`].
pub open spec fn nav_view(route: Route) -> Markup {
    el("nav"@).class(NAV_CLASS@).child(
        nav_link_view(Route::SetList, route, Markup::Raw(LIST_ICON@), "Sets"@),
    ).child(nav_link_view(Route::Root, route, Markup::Raw(PLUS_CIRCLE_ICON@), "Add a set"@)).child(
        nav_link_view(Route::Profile, route, Markup::Raw(USER_CIRCLE_ICON@), "Profile"@),
    ).node()
}

/// The navigation bar, with the link to `route` standing out.
pub fn nav(route: Route) -> (node: MarkupNode)
    ensures
        node@ == nav_view(route),
{
    tag("nav").class(NAV_CLASS).child(nav_link(Route::SetList, route, list_icon(), "Sets")).child(
        nav_link(Route::Root, route, plus_circle_icon(), "Add a set"),
    ).child(nav_link(Route::Profile, route, user_circle_icon(), "Profile")).node()
}

/// The markup of [`body`].
pub open spec fn body_view(route: Route, inner: Markup) -> Markup {
    el("body"@).class("h-screen dark:bg-gray-900 dark:text-white"@).attr(
        "hx-boost"@,
        "true"@,
    ).attr("hx-push-url"@, "true"@).attr("hx-ext"@, "json-enc, preload"@).child(
        nav_view(route),
    ).child(el("main"@).class("max-w-lg mx-auto lg:mt-16 pt-4"@).child(inner).node()).node()
}

/// The body of every page: the navigation bar and the page's own content.
pub fn body(route: Route, inner: MarkupNode) -> (node: MarkupNode)
    ensures
        node@ == body_view(route, inner@),
{
    tag("body").class("h-screen dark:bg-gray-900 dark:text-white").attr("hx-boost", "true").attr(
        "hx-push-url",
        "true",
    ).attr("hx-ext", "json-enc, preload").child(nav(route)).child(
        tag("main").class("max-w-lg mx-auto lg:mt-16 pt-4").child(inner).node(),
    ).node()
}

/// The whole document of a page.
pub open spec fn document_view(route: Route, inner: Markup) -> Markup {
    Markup::Fragment(
        seq![
            doctype_view("html"@),
            el("html"@).child(head_view()).child(body_view(route, inner)).node(),
        ],
    )
}

/// The whole document of a page: the document type, the head and the body
/// around `inner`.
pub fn document(route: Route, inner: MarkupNode) -> (node: MarkupNode)
    ensures
        node@ == document_view(route, inner@),
{
    let first = doctype("html");
    let second = tag("html").child(head()).child(body(route, inner)).node();
    let mut nodes: Vec<MarkupNode> = Vec::new();
    proof {
        lemma_nodes_view_push(nodes@, first);
        lemma_nodes_view_push(nodes@.push(first), second);
        assert(nodes_view(nodes@.push(first).push(second)) =~= seq![first@, second@]);
    }
    nodes.push(first);
    nodes.push(second);
    fragment(nodes)
}

/// The response that shows `inner` as the page of `route`.
pub fn response(route: Route, inner: MarkupNode) -> (r: Responder)
    ensures
        r@ == ResponderView::start().render(rendered(document_view(route, inner@))),
        r.header_names() <= 1,
{
    let page = document(route, inner);
    res().render(&page)
}

/// The response that shows `inner` as the page of `route`. It never fails.
pub fn render(route: Route, inner: MarkupNode) -> (r: Result<Responder, Error>)
    ensures
        r matches Ok(responder) && responder@ == ResponderView::start().render(
            rendered(document_view(route, inner@)),
        ) && responder.header_names() <= 1,
{
    Ok(response(route, inner))
}

/// The markup of [`profile_part`].
pub open spec fn profile_part_view(user: UserView) -> Markup {
    el("div"@).class("flex flex-col gap-8 px-4 lg:px-0"@).child(
        el("h1"@).class("text-2xl text-center"@).text("Profile"@).node(),
    ).child(
        el("h1"@).text("Your secret key: "@).child(
            el("span"@).class("font-bold"@).text(user.secret).node(),
        ).node(),
    ).child(
        el("p"@).text("don't lose this, it's your only way back to your sets"@).node(),
    ).child(form_view(Route::Logout).child(button_view().text("logout"@).node()).node()).node()
}

/// The profile page: the user's secret and the button that logs out.
pub fn profile_part(user: User) -> (node: MarkupNode)
    ensures
        node@ == profile_part_view(user@),
{
    tag("div").class("flex flex-col gap-8 px-4 lg:px-0").child(
        tag("h1").class("text-2xl text-center").text("Profile").node(),
    ).child(
        tag("h1").text("Your secret key: ").child(
            tag("span").class("font-bold").text(user.secret.as_str()).node(),
        ).node(),
    ).child(tag("p").text("don't lose this, it's your only way back to your sets").node()).child(
        form(Route::Logout).child(button().text("logout").node()).node(),
    ).node()
}

/// The markup of [`login_form_part`].
pub open spec fn login_form_part_view(login_form: LoginFormView) -> Markup {
    form_view(Route::Login).class("flex flex-col gap-4 px-4 lg:px-0"@).child(
        el("div"@).text(
            match login_form.error {
                Some(err) => err,
                None => Seq::empty(),
            },
        ).node(),
    ).child(
        el("div"@).class("flex flex-col gap-1"@).child(label_view("Enter your secret"@)).child(
            text_input_view().attr("autofocus"@, "autofocus"@).name("secret"@).value(
                login_form.secret,
            ).node(),
        ).node(),
    ).child(button_view().text("login"@).node()).node()
}

/// The login page: the message of a failed attempt, if any, and the form
/// that takes the secret. The message is text; the secret becomes an
/// attribute value and is taken as trusted.
pub fn login_form_part(login_form: LoginForm) -> (node: MarkupNode)
    ensures
        node@ == login_form_part_view(login_form@),
{
    let message = match login_form.error {
        Some(err) => err,
        None => String::new(),
    };
    form(Route::Login).class("flex flex-col gap-4 px-4 lg:px-0").child(
        tag("div").text(message.as_str()).node(),
    ).child(
        tag("div").class("flex flex-col gap-1").child(label("Enter your secret")).child(
            text_input().attr("autofocus", "autofocus").name("secret").value(
                login_form.secret.as_str(),
            ).node(),
        ).node(),
    ).child(button().text("login").node()).node()
}

} // verus!
