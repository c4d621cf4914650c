use vstd::prelude::*;

verus! {

/// The tag pushed when none is given.
pub open spec fn default_tag() -> Seq<char> {
    seq!['l', 'a', 't', 'e', 's', 't']
}

/// The full reference `user/image:tag` under which an image is pushed.
pub open spec fn reference_of(user: Seq<char>, image: Seq<char>, tag: Seq<char>) -> Seq<char> {
    user + seq!['/'] + image + seq![':'] + tag
}

/// The reference under which `image` is built and pushed to the account
/// `user`, with the tag `latest` where none is given.
pub fn image_reference(user: &str, image: &str, tag: Option<&str>) -> (r: String)
    ensures
        r@ == reference_of(
            user@,
            image@,
            match tag {
                Some(t) => t@,
                None => default_tag(),
            },
        ),
{
    proof {
        reveal_strlit("/");
        reveal_strlit(":");
        reveal_strlit("latest");
        assert("/"@ =~= seq!['/']);
        assert(":"@ =~= seq![':']);
        assert("latest"@ =~= default_tag());
    }
    let mut r = String::from_str(user);
    r.append("/");
    r.append(image);
    r.append(":");
    match tag {
        Some(t) => r.append(t),
        None => r.append("latest"),
    }
    r
}

} // verus!
