//! Application containers, in which sandboxed programs run.
use vstd::prelude::*;

use crate::error::Error;
use crate::sid::{Sid, SidView};
use crate::wide::WideString;

verus! {

/// The decimal digit of `d`.
pub open spec fn digit(d: nat) -> char {
    (0x30 + d) as char
}

/// A number in decimal.
pub open spec fn decimal(n: nat) -> Seq<char>
    decreases n,
{
    if n < 10 {
        seq![digit(n)]
    } else {
        decimal(n / 10).push(digit(n % 10))
    }
}

/// The name of a container: that of the executable, the number of the process, the time and a
/// counter, with dashes between them.
pub open spec fn container_name(
    executable: Seq<char>,
    pid: nat,
    timestamp: nat,
    counter: nat,
) -> Seq<char> {
    "Birdcage-"@ + executable + seq!['-'] + decimal(pid) + seq!['-'] + decimal(timestamp) + seq!['-']
        + decimal(counter)
}

proof fn lemma_decimal_digits(n: nat)
    ensures
        decimal(n).len() > 0,
        forall|i: int| 0 <= i < decimal(n).len() ==> #[trigger] decimal(n)[i] != '-',
    decreases n,
{
    if n >= 10 {
        lemma_decimal_digits(n / 10);
    }
}

/// Different numbers have different decimals.
pub proof fn decimal_injective(a: nat, b: nat)
    requires
        decimal(a) == decimal(b),
    ensures
        a == b,
    decreases a,
{
    lemma_decimal_digits(a / 10);
    lemma_decimal_digits(b / 10);
    assert(decimal(a).last() == digit(a % 10));
    assert(decimal(b).last() == digit(b % 10));
    assert(digit(a % 10) as int == 0x30 + a % 10);
    assert(digit(b % 10) as int == 0x30 + b % 10);
    if a >= 10 && b >= 10 {
        assert(decimal(a).drop_last() =~= decimal(a / 10));
        assert(decimal(b).drop_last() =~= decimal(b / 10));
        decimal_injective(a / 10, b / 10);
    }
}

proof fn lemma_split_at_last_dash(a: Seq<char>, x: Seq<char>, b: Seq<char>, y: Seq<char>)
    requires
        a + seq!['-'] + x == b + seq!['-'] + y,
        forall|i: int| 0 <= i < x.len() ==> #[trigger] x[i] != '-',
        forall|i: int| 0 <= i < y.len() ==> #[trigger] y[i] != '-',
    ensures
        a == b,
        x == y,
{
    let s = a + seq!['-'] + x;
    let t = b + seq!['-'] + y;
    assert(s.len() == a.len() + 1 + x.len());
    assert(t.len() == b.len() + 1 + y.len());
    if a.len() < b.len() {
        assert(s[b.len() as int] == x[b.len() - a.len() - 1]);
        assert(t[b.len() as int] == '-');
    } else if b.len() < a.len() {
        assert(t[a.len() as int] == y[a.len() - b.len() - 1]);
        assert(s[a.len() as int] == '-');
    }
    assert(s.take(a.len() as int) =~= a);
    assert(t.take(b.len() as int) =~= b);
    assert(s.skip(a.len() as int + 1) =~= x);
    assert(t.skip(b.len() as int + 1) =~= y);
}

/// Container names are unique: they differ as soon as the executable, the process, the time or
/// the counter does.
pub proof fn container_names_unique(
    executable: Seq<char>,
    pid: nat,
    timestamp: nat,
    counter: nat,
    executable2: Seq<char>,
    pid2: nat,
    timestamp2: nat,
    counter2: nat,
)
    requires
        crate::wide::encode_utf16(container_name(executable, pid, timestamp, counter))
            == crate::wide::encode_utf16(container_name(executable2, pid2, timestamp2, counter2)),
    ensures
        executable == executable2,
        pid == pid2,
        timestamp == timestamp2,
        counter == counter2,
{
    crate::wide::encode_injective(
        container_name(executable, pid, timestamp, counter),
        container_name(executable2, pid2, timestamp2, counter2),
    );
    let a = "Birdcage-"@ + executable;
    let b = a + seq!['-'] + decimal(pid);
    let c = b + seq!['-'] + decimal(timestamp);
    let a2 = "Birdcage-"@ + executable2;
    let b2 = a2 + seq!['-'] + decimal(pid2);
    let c2 = b2 + seq!['-'] + decimal(timestamp2);
    lemma_decimal_digits(pid);
    lemma_decimal_digits(timestamp);
    lemma_decimal_digits(counter);
    lemma_decimal_digits(pid2);
    lemma_decimal_digits(timestamp2);
    lemma_decimal_digits(counter2);
    lemma_split_at_last_dash(c, decimal(counter), c2, decimal(counter2));
    lemma_split_at_last_dash(b, decimal(timestamp), b2, decimal(timestamp2));
    lemma_split_at_last_dash(a, decimal(pid), a2, decimal(pid2));
    decimal_injective(counter, counter2);
    decimal_injective(timestamp, timestamp2);
    decimal_injective(pid, pid2);
    let n = "Birdcage-"@.len() as int;
    assert(a.skip(n) =~= executable);
    assert(a2.skip(n) =~= executable2);
}

/// Appends a number in decimal.
fn push_decimal(text: &mut String, n: u128)
    ensures
        final(text)@ == old(text)@ + decimal(n as nat),
    decreases n,
{
    let ghost before = text@;
    if n >= 10 {
        push_decimal(text, n / 10);
    }
    let d: u8 = (n % 10) as u8;
    text.push((0x30 + d) as char);
    assert(text@ =~= before + decimal(n as nat));
}

/// What the name of a container is made of.
#[derive(Debug)]
pub struct NameParts {
    /// File name of the running program, if known.
    pub executable: Option<WideString>,
    /// Number of this process.
    pub pid: u32,
    /// Time in milliseconds, if known.
    pub timestamp: Option<u128>,
    /// How many names were made before.
    pub counter: u64,
}

/// The name made of the parts, in UTF-16.
pub open spec fn name_of_parts(parts: NameParts) -> Seq<u16> {
    crate::wide::encode_utf16(
        container_name(
            match parts.executable {
                Some(name) => crate::wide::decode_lossy(name@),
                None => Seq::empty(),
            },
            parts.pid as nat,
            match parts.timestamp {
                Some(time) => time as nat,
                None => 0,
            },
            parts.counter as nat,
        ),
    )
}

impl NameParts {
    /// The name made of the parts.
    pub fn name(&self) -> (r: WideString)
        ensures
            r@ == name_of_parts(*self),
    {
        let executable_name: String = match &self.executable {
            Some(name) => name.to_string_lossy(),
            None => String::new(),
        };
        let time: u128 = match self.timestamp {
            Some(time) => time,
            None => 0,
        };
        let mut text: String = "Birdcage-".to_owned();
        text.append(executable_name.as_str());
        text.push('-');
        push_decimal(&mut text, self.pid as u128);
        text.push('-');
        push_decimal(&mut text, time);
        text.push('-');
        push_decimal(&mut text, self.counter as u128);
        assert(text@ =~= container_name(
            executable_name@,
            self.pid as nat,
            time as nat,
            self.counter as nat,
        ));
        WideString::from_text(text.as_str())
    }
}

/// Counts the names that were made, so that no two are the same. All names of a process are to
/// be made with one counter.
#[derive(Debug)]
pub struct NameCounter {
    /// How many names were made; the count begins anew after the last number.
    pub made: u64,
}

/// The count after one more name.
pub open spec fn next_count(made: u64) -> u64 {
    ((made + 1) % 0x1_0000_0000_0000_0000) as u64
}

impl NameCounter {
    /// The parts of the next name. Every call advances the count by one.
    pub fn next_parts(
        &mut self,
        executable: Option<WideString>,
        pid: u32,
        timestamp: Option<u128>,
    ) -> (r: NameParts)
        ensures
            r == (NameParts { executable, pid, timestamp, counter: old(self).made }),
            final(self).made == next_count(old(self).made),
            old(self).made < u64::MAX ==> final(self).made == old(self).made + 1,
            old(self).made == u64::MAX ==> final(self).made == 0,
    {
        let counter: u64 = self.made;
        self.made = if counter == u64::MAX {
            0
        } else {
            counter + 1
        };
        NameParts { executable, pid, timestamp, counter }
    }
}

/// A name for a container that no other has, in UTF-16. `executable` is the file name of the
/// running program, if known; `timestamp` is the time in milliseconds, if known.
pub fn unique_app_container_name(
    counter: &mut NameCounter,
    executable: Option<WideString>,
    pid: u32,
    timestamp: Option<u128>,
) -> (r: WideString)
    ensures
        r@ == name_of_parts(
            NameParts { executable, pid, timestamp, counter: old(counter).made },
        ),
        final(counter).made == next_count(old(counter).made),
{
    counter.next_parts(executable, pid, timestamp).name()
}

/// Whether these are the parts of names that were made one after the other, with a counter that
/// stood at `made` before the first.
pub open spec fn made_in_a_row(made: u64, parts: Seq<NameParts>) -> bool
    decreases parts.len(),
{
    parts.len() > 0 ==> {
        &&& parts[0].counter == made
        &&& made_in_a_row(next_count(made), parts.skip(1))
    }
}

proof fn lemma_count(made: u64, parts: Seq<NameParts>, i: int)
    requires
        made_in_a_row(made, parts),
        0 <= i < parts.len(),
    ensures
        parts[i].counter == (made + i) % 0x1_0000_0000_0000_0000,
    decreases i,
{
    if i > 0 {
        lemma_count(next_count(made), parts.skip(1), i - 1);
        assert(parts.skip(1)[i - 1] == parts[i]);
    }
}

/// No two of fewer than two to the power of 64 names that are made with one counter are the same,
/// whatever program and process they are made in, and whatever the clock shows.
pub proof fn names_never_repeat(made: u64, parts: Seq<NameParts>, i: int, j: int)
    requires
        made_in_a_row(made, parts),
        0 <= i < j < parts.len() < 0x1_0000_0000_0000_0000,
    ensures
        name_of_parts(parts[i]) != name_of_parts(parts[j]),
{
    lemma_count(made, parts, i);
    lemma_count(made, parts, j);
    if name_of_parts(parts[i]) == name_of_parts(parts[j]) {
        let (a, b) = (parts[i], parts[j]);
        container_names_unique(
            match a.executable {
                Some(name) => crate::wide::decode_lossy(name@),
                None => Seq::empty(),
            },
            a.pid as nat,
            match a.timestamp {
                Some(time) => time as nat,
                None => 0,
            },
            a.counter as nat,
            match b.executable {
                Some(name) => crate::wide::decode_lossy(name@),
                None => Seq::empty(),
            },
            b.pid as nat,
            match b.timestamp {
                Some(time) => time as nat,
                None => 0,
            },
            b.counter as nat,
        );
    }
}

/// The strings that are handed over to create a container profile, each with its terminating
/// zero. No capabilities are handed over.
#[derive(Debug)]
pub struct ProfileRequest {
    pub name: Vec<u16>,
    pub display_name: Vec<u16>,
    pub description: Vec<u16>,
}

/// The profile of a container: its name and the identifier of what runs in it.
#[derive(Debug)]
pub struct AppContainerProfile {
    pub name: WideString,
    pub sid: Sid,
}

/// What an `AppContainerProfile` holds.
pub struct ProfileView {
    pub name: Seq<u16>,
    pub sid: SidView,
}

impl View for AppContainerProfile {
    type V = ProfileView;

    open spec fn view(&self) -> ProfileView {
        ProfileView { name: self.name@, sid: self.sid@ }
    }
}

impl Clone for AppContainerProfile {
    fn clone(&self) -> (r: Self)
        ensures
            r@ == self@,
    {
        AppContainerProfile { name: self.name.clone(), sid: self.sid.clone() }
    }
}

/// The profile of the given name that creating or looking it up gave: the address of its
/// identifier, or the result code of the failure.
pub open spec fn profile_result(
    name: Seq<u16>,
    reply: Result<usize, i32>,
    r: Result<AppContainerProfile, Error>,
) -> bool {
    match reply {
        Ok(address) => r is Ok && r->Ok_0@ == (ProfileView { name, sid: SidView::Raw(address) }),
        Err(code) => r == Err::<AppContainerProfile, Error>(Error::Io(code)),
    }
}

impl AppContainerProfile {
    /// What is handed over to create a profile.
    pub fn new_request(
        name: &WideString,
        display_name: &WideString,
        description: &WideString,
    ) -> (r: ProfileRequest)
        ensures
            r.name@ == name@.push(0),
            r.display_name@ == display_name@.push(0),
            r.description@ == description@.push(0),
    {
        ProfileRequest {
            name: name.with_nul(),
            display_name: display_name.with_nul(),
            description: description.with_nul(),
        }
    }

    /// What is handed over to create the profile of a sandbox.
    pub fn sandbox_request(name: &WideString) -> (r: ProfileRequest)
        ensures
            r.name@ == name@.push(0),
            r.display_name@ == crate::wide::encode_utf16("Birdcage Application"@).push(0),
            r.description@ == crate::wide::encode_utf16(
                "Application container for Birdcage sandboxing"@,
            ).push(0),
    {
        AppContainerProfile::new_request(
            name,
            &WideString::from_text("Birdcage Application"),
            &WideString::from_text("Application container for Birdcage sandboxing"),
        )
    }

    /// The profile that creating it gave.
    pub fn new(name: &WideString, created: Result<usize, i32>) -> (r: Result<Self, Error>)
        ensures
            profile_result(name@, created, r),
    {
        match created {
            Ok(address) => Ok(AppContainerProfile { name: name.clone(), sid: Sid::new(address) }),
            Err(code) => Err(Error::Io(code)),
        }
    }

    /// What is handed over to look up the identifier of the profile `name`.
    pub fn existing_request(name: &WideString) -> (r: Vec<u16>)
        ensures
            r@ == name@.push(0),
    {
        name.with_nul()
    }

    /// The profile that looking up its identifier gave.
    pub fn existing(name: &WideString, derived: Result<usize, i32>) -> (r: Result<Self, Error>)
        ensures
            profile_result(name@, derived, r),
    {
        AppContainerProfile::new(name, derived)
    }

    /// What is handed over to delete the profile.
    pub fn delete_request(&self) -> (r: Vec<u16>)
        ensures
            r@ == self@.name.push(0),
    {
        self.name.with_nul()
    }

    /// The outcome of deleting the profile.
    pub fn delete(self, deleted: Result<(), i32>) -> (r: Result<(), Error>)
        ensures
            r == (match deleted {
                Ok(_) => Ok::<(), Error>(()),
                Err(code) => Err(Error::Io(code)),
            }),
    {
        match deleted {
            Ok(_) => Ok(()),
            Err(code) => Err(Error::Io(code)),
        }
    }

    /// The identifier of what runs in the container.
    pub fn sid(&self) -> (r: &Sid)
        ensures
            r@ == self@.sid,
            *r == self.sid,
    {
        &self.sid
    }
}

} // verus!
