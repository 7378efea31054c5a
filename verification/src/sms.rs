use crate::error::TransportError;
use crate::model::{Response, SmsMessage, SmsSendResponse};
use vstd::prelude::*;
use vstd::string::*;

verus! {

/// A telephone number, as the router words it.
pub type PhoneNumber = String;

/// One text in the history, sent or received, with the number it was
/// exchanged with.
#[derive(Debug)]
pub struct Entry {
    pub number: PhoneNumber,
    pub text: String,
}

/// The mathematical model of the history: number and text of each entry, in
/// the order in which they were recorded.
pub type Log = Seq<(Seq<char>, Seq<char>)>;

/// The texts that `log` holds for `number`, oldest first.
pub open spec fn texts_with(log: Log, number: Seq<char>) -> Seq<Seq<char>>
    decreases log.len(),
{
    if log.len() == 0 {
        Seq::empty()
    } else {
        let earlier = texts_with(log.drop_last(), number);
        if log.last().0 == number {
            earlier.push(log.last().1)
        } else {
            earlier
        }
    }
}

/// What a list of messages adds to a history: sender and text of each, in
/// order.
pub open spec fn received(messages: Seq<SmsMessage>) -> Log {
    messages.map_values(|message: SmsMessage| (message.sender@, message.message@))
}

/// The messages that a reply to a listing carries: none where it carries no
/// list.
pub open spec fn listed_messages(response: Response<Vec<SmsMessage>>) -> Seq<SmsMessage> {
    match response.data {
        Some(messages) => messages@,
        None => Seq::empty(),
    }
}

/// Keeps the texts exchanged with each number.
#[derive(Debug)]
pub struct Sms {
    history: Vec<Entry>,
}

impl Sms {
    /// The history, oldest entry first.
    pub closed spec fn log(&self) -> Log {
        self.history@.map_values(|entry: Entry| (entry.number@, entry.text@))
    }

    /// A provider with an empty history.
    pub fn new() -> (sms: Self)
        ensures
            sms.log() == Seq::<(Seq<char>, Seq<char>)>::empty(),
    {
        let history: Vec<Entry> = Vec::new();
        assert(history@.map_values(|entry: Entry| (entry.number@, entry.text@)) =~= Seq::<
            (Seq<char>, Seq<char>),
        >::empty());
        Sms { history }
    }

    fn record(&mut self, number: String, text: String)
        ensures
            final(self).log() == old(self).log().push((number@, text@)),
    {
        self.history.push(Entry { number, text });
        assert(self.log() =~= old(self).log().push((number@, text@)));
    }

    /// Takes in the outcome of sending `message` to `phone_number`. A
    /// message that went out is added to the history of that number; one
    /// that did not leaves the history as it was and returns the failure.
    pub fn send_message(
        &mut self,
        phone_number: &PhoneNumber,
        message: &str,
        sent: Result<Response<SmsSendResponse>, TransportError>,
    ) -> (result: Result<(), TransportError>)
        ensures
            match sent {
                Ok(_) => result is Ok && final(self).log() == old(self).log().push(
                    (phone_number@, message@),
                ),
                Err(failure) => result == Err::<(), TransportError>(failure) && final(self).log()
                    == old(self).log(),
            },
    {
        match sent {
            Ok(_) => {
                self.record(phone_number.clone(), String::from_str(message));
                Ok(())
            },
            Err(failure) => Err(failure),
        }
    }

    /// Takes in the outcome of listing the modem's messages. Each message
    /// listed is added to the history of its sender, in order, and the list
    /// is returned; a reply without a list counts as an empty one. A
    /// listing that failed leaves the history as it was and returns the
    /// failure.
    pub fn new_messages(
        &mut self,
        listed: Result<Response<Vec<SmsMessage>>, TransportError>,
    ) -> (result: Result<Vec<SmsMessage>, TransportError>)
        ensures
            match listed {
                Ok(response) => {
                    &&& result matches Ok(messages)
                    &&& messages@ == listed_messages(response)
                    &&& final(self).log() == old(self).log() + received(listed_messages(response))
                },
                Err(failure) => {
                    &&& result == Err::<Vec<SmsMessage>, TransportError>(failure)
                    &&& final(self).log() == old(self).log()
                },
            },
    {
        match listed {
            Err(failure) => Err(failure),
            Ok(response) => {
                let messages: Vec<SmsMessage> = match response.data {
                    Some(messages) => messages,
                    None => Vec::new(),
                };
                let mut i: usize = 0;
                assert(self.log() =~= old(self).log() + received(messages@.take(0)));
                while i < messages.len()
                    invariant
                        i <= messages.len(),
                        self.log() == old(self).log() + received(messages@.take(i as int)),
                    decreases messages.len() - i,
                {
                    let ghost before = self.log();
                    self.record(messages[i].sender.clone(), messages[i].message.clone());
                    proof {
                        assert(messages@.take(i + 1) =~= messages@.take(i as int).push(
                            messages@[i as int],
                        ));
                        assert(received(messages@.take(i + 1)) =~= received(
                            messages@.take(i as int),
                        ).push((messages@[i as int].sender@, messages@[i as int].message@)));
                        assert(self.log() =~= old(self).log() + received(
                            messages@.take(i + 1),
                        ));
                    }
                    i += 1;
                }
                assert(messages@.take(messages.len() as int) =~= messages@);
                Ok(messages)
            },
        }
    }

    /// The texts exchanged with `number`, oldest first.
    pub fn history(&self, number: &PhoneNumber) -> (texts: Vec<String>)
        ensures
            texts.deep_view() == texts_with(self.log(), number@),
    {
        let mut texts: Vec<String> = Vec::new();
        let mut i: usize = 0;
        proof {
            assert(self.log().take(0) =~= Seq::<(Seq<char>, Seq<char>)>::empty());
            assert(texts.deep_view() =~= texts_with(self.log().take(0), number@));
        }
        while i < self.history.len()
            invariant
                i <= self.history.len(),
                self.history.len() == self.log().len(),
                texts.deep_view() == texts_with(self.log().take(i as int), number@),
            decreases self.history.len() - i,
        {
            let ghost before = texts.deep_view();
            proof {
                let seen = self.log().take(i + 1);
                assert(seen.drop_last() =~= self.log().take(i as int));
                assert(seen.last() == (
                    self.history[i as int].number@,
                    self.history[i as int].text@,
                ));
            }
            if self.history[i].number == *number {
                texts.push(self.history[i].text.clone());
                assert(texts.deep_view() =~= before.push(self.history[i as int].text@));
            }
            i += 1;
        }
        proof {
            assert(self.log().take(self.history.len() as int) =~= self.log());
        }
        texts
    }
}

} // verus!
